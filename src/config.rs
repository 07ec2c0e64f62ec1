//! Rendering parameters and their validation.
//!
//! The vertical field of view is a 32-bit float in degrees; it is held as its
//! bit pattern (`f32::to_bits`). The aspect ratio is held as two positive
//! integers, image width to image height.

use vstd::prelude::*;

use crate::float_bits::{is_positive, is_positive_bits};

verus! {

/// Samples per pixel when none is given.
pub const DEFAULT_SAMPLE_PER_PIXEL: usize = 1;

/// Recursion depth when none is given.
pub const DEFAULT_MAX_DEPTH: usize = 10;

/// Image width in pixels when none is given.
pub const DEFAULT_IMAGE_WIDTH: usize = 128;

/// Width part of the aspect ratio (16:9).
pub const DEFAULT_ASPECT_WIDTH: u32 = 16;

/// Height part of the aspect ratio (16:9).
pub const DEFAULT_ASPECT_HEIGHT: u32 = 9;

/// Bit pattern of the vertical field of view when none is given: 90 degrees.
pub const DEFAULT_VFOV_BITS: u32 = 0x42b4_0000;

/// Why a rendering parameter was refused.
#[derive(Clone, Copy, Debug, PartialEq, Eq, Structural)]
pub enum ConfigError {
    /// Samples per pixel must be at least one.
    ZeroSamplePerPixel,
    /// The recursion depth must be at least one.
    ZeroMaxDepth,
    /// The image must be at least one pixel wide.
    ZeroImageWidth,
    /// The vertical field of view must be greater than zero.
    NonPositiveVerticalFov,
}

impl ConfigError {
    /// A sentence that says what was refused.
    pub fn message(&self) -> (r: &'static str)
        ensures
            *self == ConfigError::ZeroSamplePerPixel ==> r@ == "sample per pixel should be >= 1"@,
            *self == ConfigError::ZeroMaxDepth ==> r@ == "max depth should be >= 1"@,
            *self == ConfigError::ZeroImageWidth ==> r@ == "image width should be >= 1"@,
            *self == ConfigError::NonPositiveVerticalFov ==> r@ == "vertical fov should be > 0"@,
    {
        match self {
            ConfigError::ZeroSamplePerPixel => "sample per pixel should be >= 1",
            ConfigError::ZeroMaxDepth => "max depth should be >= 1",
            ConfigError::ZeroImageWidth => "image width should be >= 1",
            ConfigError::NonPositiveVerticalFov => "vertical fov should be > 0",
        }
    }
}

/// The parameters of one render.
#[derive(Clone, Debug)]
pub struct RConfig {
    /// Camera rays averaged for each pixel.
    pub sample_per_pixel: usize,
    /// Bounces followed along each path.
    pub max_depth: usize,
    /// Image width in pixels.
    pub image_width: usize,
    /// Width part of the aspect ratio.
    pub aspect_width: u32,
    /// Height part of the aspect ratio.
    pub aspect_height: u32,
    /// Where the image is written.
    pub output_file_path: String,
    /// Vertical field of view in degrees, as the bit pattern of an `f32`.
    pub vfov_bits: u32,
    /// Render on all available cores rather than on one thread.
    pub parallel: bool,
}

/// Image height for a width and an aspect ratio: the width scaled by the
/// ratio and rounded down, capped at the largest `u32`.
pub open spec fn image_height_of(width: nat, aspect_width: nat, aspect_height: nat) -> nat
    recommends
        aspect_width > 0,
{
    let h = width * aspect_height / aspect_width;
    if h > u32::MAX {
        u32::MAX as nat
    } else {
        h
    }
}

/// The first of the given parameters that would be refused, taken in the
/// order samples, depth, width, field of view; `None` when all are accepted.
pub open spec fn options_error(
    sample_per_pixel: Option<usize>,
    max_depth: Option<usize>,
    image_width: Option<usize>,
    vfov_bits: Option<u32>,
) -> Option<ConfigError> {
    if sample_per_pixel == Some(0usize) {
        Some(ConfigError::ZeroSamplePerPixel)
    } else if max_depth == Some(0usize) {
        Some(ConfigError::ZeroMaxDepth)
    } else if image_width == Some(0usize) {
        Some(ConfigError::ZeroImageWidth)
    } else if vfov_bits matches Some(b) && !is_positive_bits(b) {
        Some(ConfigError::NonPositiveVerticalFov)
    } else {
        None
    }
}

/// The given value, or `default` when none is given.
pub open spec fn given_or<T>(value: Option<T>, default: T) -> T {
    match value {
        Some(v) => v,
        None => default,
    }
}

impl RConfig {
    /// The default parameters, with each given one in place of its default.
    /// Refused with the first parameter that is refused, in the order
    /// samples, depth, width, field of view.
    pub fn from_options(
        sample_per_pixel: Option<usize>,
        max_depth: Option<usize>,
        image_width: Option<usize>,
        output_file_path: Option<String>,
        vfov_bits: Option<u32>,
        parallel: bool,
    ) -> (r: Result<RConfig, ConfigError>)
        ensures
            options_error(sample_per_pixel, max_depth, image_width, vfov_bits) matches Some(e)
                ==> r == Err::<RConfig, ConfigError>(e),
            options_error(sample_per_pixel, max_depth, image_width, vfov_bits) is None ==> {
                &&& r is Ok
                &&& r->Ok_0.sample_per_pixel == given_or(sample_per_pixel, DEFAULT_SAMPLE_PER_PIXEL)
                &&& r->Ok_0.max_depth == given_or(max_depth, DEFAULT_MAX_DEPTH)
                &&& r->Ok_0.image_width == given_or(image_width, DEFAULT_IMAGE_WIDTH)
                &&& r->Ok_0.aspect_width == DEFAULT_ASPECT_WIDTH
                &&& r->Ok_0.aspect_height == DEFAULT_ASPECT_HEIGHT
                &&& r->Ok_0.output_file_path@ == match output_file_path {
                    Some(p) => p@,
                    None => "out.png"@,
                }
                &&& r->Ok_0.vfov_bits == given_or(vfov_bits, DEFAULT_VFOV_BITS)
                &&& r->Ok_0.parallel == parallel
                &&& r->Ok_0.wf()
            },
    {
        proof {
            reveal_strlit("out.png");
        }
        let config = RConfig::default();
        let config = match sample_per_pixel {
            Some(n) => match config.with_sample_per_pixel(n) {
                Ok(c) => c,
                Err(e) => return Err(e),
            },
            None => config,
        };
        let config = match max_depth {
            Some(n) => match config.with_max_depth(n) {
                Ok(c) => c,
                Err(e) => return Err(e),
            },
            None => config,
        };
        let config = match image_width {
            Some(n) => match config.with_image_width(n) {
                Ok(c) => c,
                Err(e) => return Err(e),
            },
            None => config,
        };
        let config = match output_file_path {
            Some(p) => match config.with_output_file_path(p) {
                Ok(c) => c,
                Err(e) => return Err(e),
            },
            None => config,
        };
        let config = match vfov_bits {
            Some(b) => match config.with_vertical_fov(b) {
                Ok(c) => c,
                Err(e) => return Err(e),
            },
            None => config,
        };
        let config = if parallel {
            match config.with_parallel(true) {
                Ok(c) => c,
                Err(e) => return Err(e),
            }
        } else {
            config
        };
        Ok(config)
    }

    /// Every parameter is usable: at least one sample, one level of depth and
    /// one pixel of width, a proper aspect ratio and a positive field of view.
    pub open spec fn wf(&self) -> bool {
        &&& self.sample_per_pixel >= 1
        &&& self.max_depth >= 1
        &&& self.image_width >= 1
        &&& self.aspect_width >= 1
        &&& self.aspect_height >= 1
        &&& is_positive_bits(self.vfov_bits)
    }

    /// Image height in pixels, derived from the width and the aspect ratio.
    pub fn get_image_height(&self) -> (r: u32)
        requires
            self.aspect_width > 0,
        ensures
            r as nat == image_height_of(
                self.image_width as nat,
                self.aspect_width as nat,
                self.aspect_height as nat,
            ),
    {
        let w = self.image_width as u128;
        let ah = self.aspect_height as u128;
        proof {
            assert(w * ah <= 0xffff_ffff_ffff_ffff * 0xffff_ffffu128) by (nonlinear_arith)
                requires
                    w <= 0xffff_ffff_ffff_ffff,
                    ah <= 0xffff_ffff,
            ;
        }
        let h = w * ah / (self.aspect_width as u128);
        if h > u32::MAX as u128 {
            u32::MAX
        } else {
            h as u32
        }
    }

    /// The same parameters with `sample_per_pixel` samples per pixel; refused
    /// when it is zero.
    pub fn with_sample_per_pixel(self, sample_per_pixel: usize) -> (r: Result<RConfig, ConfigError>)
        ensures
            sample_per_pixel == 0 ==> r == Err::<RConfig, ConfigError>(
                ConfigError::ZeroSamplePerPixel,
            ),
            sample_per_pixel != 0 ==> r == Ok::<RConfig, ConfigError>(
                (RConfig { sample_per_pixel, ..self }),
            ),
    {
        if sample_per_pixel != 0 {
            Ok(RConfig { sample_per_pixel, ..self })
        } else {
            Err(ConfigError::ZeroSamplePerPixel)
        }
    }

    /// The same parameters with recursion depth `max_depth`; refused when it
    /// is zero.
    pub fn with_max_depth(self, max_depth: usize) -> (r: Result<RConfig, ConfigError>)
        ensures
            max_depth == 0 ==> r == Err::<RConfig, ConfigError>(ConfigError::ZeroMaxDepth),
            max_depth != 0 ==> r == Ok::<RConfig, ConfigError>((RConfig { max_depth, ..self })),
    {
        if max_depth != 0 {
            Ok(RConfig { max_depth, ..self })
        } else {
            Err(ConfigError::ZeroMaxDepth)
        }
    }

    /// The same parameters with an image `image_width` pixels wide; refused
    /// when it is zero.
    pub fn with_image_width(self, image_width: usize) -> (r: Result<RConfig, ConfigError>)
        ensures
            image_width == 0 ==> r == Err::<RConfig, ConfigError>(ConfigError::ZeroImageWidth),
            image_width != 0 ==> r == Ok::<RConfig, ConfigError>(
                (RConfig { image_width, ..self }),
            ),
    {
        if image_width != 0 {
            Ok(RConfig { image_width, ..self })
        } else {
            Err(ConfigError::ZeroImageWidth)
        }
    }

    /// The same parameters with the image written to `output_file_path`.
    pub fn with_output_file_path(self, output_file_path: String) -> (r: Result<
        RConfig,
        ConfigError,
    >)
        ensures
            r == Ok::<RConfig, ConfigError>((RConfig { output_file_path, ..self })),
    {
        Ok(RConfig { output_file_path, ..self })
    }

    /// The same parameters with the vertical field of view whose bit pattern
    /// is `vfov_bits`; refused unless that float is greater than zero.
    pub fn with_vertical_fov(self, vfov_bits: u32) -> (r: Result<RConfig, ConfigError>)
        ensures
            !is_positive_bits(vfov_bits) ==> r == Err::<RConfig, ConfigError>(
                ConfigError::NonPositiveVerticalFov,
            ),
            is_positive_bits(vfov_bits) ==> r == Ok::<RConfig, ConfigError>(
                (RConfig { vfov_bits, ..self }),
            ),
    {
        if is_positive(vfov_bits) {
            Ok(RConfig { vfov_bits, ..self })
        } else {
            Err(ConfigError::NonPositiveVerticalFov)
        }
    }

    /// The same parameters, rendered in parallel or on one thread.
    pub fn with_parallel(self, parallel: bool) -> (r: Result<RConfig, ConfigError>)
        ensures
            r == Ok::<RConfig, ConfigError>((RConfig { parallel, ..self })),
    {
        Ok(RConfig { parallel, ..self })
    }
}

impl Default for RConfig {
    fn default() -> (r: RConfig)
        ensures
            r.sample_per_pixel == DEFAULT_SAMPLE_PER_PIXEL,
            r.max_depth == DEFAULT_MAX_DEPTH,
            r.image_width == DEFAULT_IMAGE_WIDTH,
            r.aspect_width == DEFAULT_ASPECT_WIDTH,
            r.aspect_height == DEFAULT_ASPECT_HEIGHT,
            r.output_file_path@ == "out.png"@,
            r.vfov_bits == DEFAULT_VFOV_BITS,
            !r.parallel,
    {
        RConfig {
            sample_per_pixel: DEFAULT_SAMPLE_PER_PIXEL,
            max_depth: DEFAULT_MAX_DEPTH,
            image_width: DEFAULT_IMAGE_WIDTH,
            aspect_width: DEFAULT_ASPECT_WIDTH,
            aspect_height: DEFAULT_ASPECT_HEIGHT,
            output_file_path: "out.png".to_owned(),
            vfov_bits: DEFAULT_VFOV_BITS,
            parallel: false,
        }
    }
}

} // verus!
