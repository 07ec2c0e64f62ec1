use raytracer::raster::{image_row, pixel_count, pixel_of_index};

#[test]
fn pixel_count_of_default_image() {
    assert_eq!(pixel_count(128, 72), Some(9216));
    assert_eq!(pixel_count(1, 0), Some(0));
}

#[test]
fn pixel_count_too_large() {
    assert_eq!(pixel_count(65536, 65536), None);
    assert_eq!(pixel_count(65536, 65535), Some(65536 * 65535));
    assert_eq!(pixel_count(u32::MAX, 1), Some(u32::MAX));
}

#[test]
fn pixel_indices_run_row_by_row() {
    assert_eq!(pixel_of_index(0, 4), (0, 0));
    assert_eq!(pixel_of_index(3, 4), (3, 0));
    assert_eq!(pixel_of_index(4, 4), (0, 1));
    assert_eq!(pixel_of_index(11, 4), (3, 2));
}

#[test]
fn every_pixel_is_enumerated_once() {
    let (w, h) = (5u32, 3u32);
    let mut seen = vec![false; (w * h) as usize];
    for p in 0..pixel_count(w, h).unwrap() {
        let (x, y) = pixel_of_index(p, w);
        assert!(x < w && y < h);
        let slot = (y * w + x) as usize;
        assert!(!seen[slot]);
        seen[slot] = true;
    }
    assert!(seen.iter().all(|&s| s));
}

#[test]
fn rows_are_flipped() {
    assert_eq!(image_row(0, 72), 71);
    assert_eq!(image_row(71, 72), 0);
    assert_eq!(image_row(10, 72), 61);
    assert_eq!(image_row(0, 1), 0);
    for y in 0..7 {
        assert_eq!(image_row(image_row(y, 7), 7), y);
    }
}
