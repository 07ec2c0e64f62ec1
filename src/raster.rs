//! Raster geometry: pixel enumeration and the row flip between the renderer's
//! bottom-up rows and an image's top-down rows.

use vstd::prelude::*;

verus! {

/// Number of pixels of a `width` by `height` image, which is also the number
/// of pixel indices; `None` when it does not fit in a `u32`.
pub fn pixel_count(width: u32, height: u32) -> (r: Option<u32>)
    ensures
        r is None <==> width * height > u32::MAX,
        r matches Some(n) ==> n == width * height,
{
    proof {
        assert(width as int * height as int <= 0xffff_ffff * 0xffff_ffff) by (nonlinear_arith)
            requires
                width <= 0xffff_ffff,
                height <= 0xffff_ffff,
        ;
    }
    let n = (width as u64) * (height as u64);
    if n > u32::MAX as u64 {
        None
    } else {
        Some(n as u32)
    }
}

/// Pixel `(x, y)` that pixel index `p` stands for, row by row from row zero:
/// `x` is the column and `y` the row, counted from the bottom.
pub fn pixel_of_index(p: u32, width: u32) -> (r: (u32, u32))
    requires
        width > 0,
    ensures
        r.0 == p % width,
        r.1 == p / width,
{
    (p % width, p / width)
}

/// Enumerating pixel indices covers the image once: each index below
/// `width * height` stands for a pixel inside the image, and two distinct
/// indices stand for distinct pixels.
pub proof fn lemma_pixel_enumeration(width: u32, height: u32, p: u32, q: u32)
    requires
        width > 0,
        p < width * height,
        q < width * height,
    ensures
        p % width < width,
        p / width < height,
        p == (p / width) * width + p % width,
        p != q ==> (p % width, p / width) != (q % width, q / width),
{
    let w = width as int;
    let h = height as int;
    assert(p as int == (p as int / w) * w + p as int % w) by (nonlinear_arith)
        requires
            w > 0,
    ;
    assert(q as int == (q as int / w) * w + q as int % w) by (nonlinear_arith)
        requires
            w > 0,
    ;
    assert(p as int / w < h) by (nonlinear_arith)
        requires
            w > 0,
            0 <= p < w * h,
    ;
}

/// Row of an image (rows counted from the top) that shows renderer row `y`
/// (rows counted from the bottom) of an image `height` rows tall.
pub fn image_row(y: u32, height: u32) -> (r: u32)
    requires
        y < height,
    ensures
        r == height - y - 1,
        r < height,
{
    height - y - 1
}

/// Flipping rows is its own inverse, and distinct rows land on distinct rows.
pub proof fn lemma_image_row_flip(y: u32, z: u32, height: u32)
    requires
        y < height,
        z < height,
    ensures
        height - (height - y - 1) - 1 == y,
        y != z ==> height - y - 1 != height - z - 1,
{
}

} // verus!
