use raymarch::camera::{pixel_offset, PixelOffset};

#[test]
fn corner_offsets_of_small_frame() {
    assert_eq!(pixel_offset(0, 0, 4, 4), PixelOffset { dx2: -3, dy2: 3 });
    assert_eq!(pixel_offset(3, 3, 4, 4), PixelOffset { dx2: 3, dy2: -3 });
    assert_eq!(pixel_offset(3, 0, 4, 4), PixelOffset { dx2: 3, dy2: 3 });
    assert_eq!(pixel_offset(0, 3, 4, 4), PixelOffset { dx2: -3, dy2: -3 });
}

#[test]
fn central_offsets_of_small_frame() {
    assert_eq!(pixel_offset(1, 1, 4, 4), PixelOffset { dx2: -1, dy2: 1 });
    assert_eq!(pixel_offset(2, 2, 4, 4), PixelOffset { dx2: 1, dy2: -1 });
}

#[test]
fn odd_frame_has_exact_centre() {
    assert_eq!(pixel_offset(2, 1, 5, 3), PixelOffset { dx2: 0, dy2: 0 });
}

#[test]
fn offsets_match_half_pixel_formula() {
    let (w, h) = (640usize, 480usize);
    for &(i, j) in &[(0usize, 0usize), (639, 479), (320, 240), (17, 401)] {
        let o = pixel_offset(i, j, w, h);
        let fx = ((i as f32) + 0.5) - (w as f32) / 2.0;
        let fy = -((j as f32) + 0.5) + (h as f32) / 2.0;
        assert_eq!(o.dx2 as f32 / 2.0, fx);
        assert_eq!(o.dy2 as f32 / 2.0, fy);
    }
}
