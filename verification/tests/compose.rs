use svg_cache::compose;
use svg_cache::Frame;
use svg_cache::RenderError;

fn numbered(width: u32, height: u32) -> Frame {
    let len = (4 * width * height) as usize;
    let pixels: Vec<u8> = (0..len).map(|i| (i % 251) as u8 + 1).collect();
    Frame::from_pixels(pixels, width, height).unwrap()
}

fn channel(frame: &Frame, x: u32, y: u32, c: u32) -> u8 {
    frame.pixels()[((y * frame.width() + x) * 4 + c) as usize]
}

#[test]
fn frame_needs_four_bytes_per_pixel() {
    assert!(Frame::from_pixels(vec![0; 24], 3, 2).is_some());
    assert!(Frame::from_pixels(vec![0; 23], 3, 2).is_none());
    assert!(Frame::from_pixels(vec![0; 25], 3, 2).is_none());
    assert!(Frame::from_pixels(vec![0; 24], 2, 3).is_some());
    assert!(Frame::from_pixels(vec![], 0, 7).is_some());
    assert!(Frame::from_pixels(vec![], 7, 0).is_some());
    assert!(Frame::from_pixels(vec![0; 4], 0, 0).is_none());
    assert!(Frame::from_pixels(vec![], u32::MAX, u32::MAX).is_none());
}

#[test]
fn frame_gives_back_what_it_took() {
    let f = Frame::from_pixels(vec![1, 2, 3, 4, 5, 6, 7, 8], 1, 2).unwrap();
    assert_eq!(f.width(), 1);
    assert_eq!(f.height(), 2);
    assert_eq!(f.pixels(), &vec![1, 2, 3, 4, 5, 6, 7, 8]);
    assert_eq!(f.into_pixels(), vec![1, 2, 3, 4, 5, 6, 7, 8]);
}

#[test]
fn canvas_of_target_size_is_the_frame() {
    let canvas = numbered(5, 3);
    let before = canvas.pixels().clone();
    let out = compose(canvas, 5, 3).unwrap();
    assert_eq!((out.width(), out.height()), (5, 3));
    assert_eq!(out.pixels(), &before);
}

#[test]
fn narrow_canvas_is_centred_between_columns() {
    let canvas = Frame::from_pixels(vec![9, 8, 7, 6, 5, 4, 3, 2], 1, 2).unwrap();
    let out = compose(canvas, 4, 2).unwrap();
    assert_eq!((out.width(), out.height()), (4, 2));
    assert_eq!(
        out.pixels(),
        &vec![
            0, 0, 0, 0, 9, 8, 7, 6, 0, 0, 0, 0, 0, 0, 0, 0, //
            0, 0, 0, 0, 5, 4, 3, 2, 0, 0, 0, 0, 0, 0, 0, 0,
        ]
    );
}

#[test]
fn flat_canvas_is_centred_between_rows() {
    let canvas = Frame::from_pixels(vec![1, 2, 3, 4, 5, 6, 7, 8], 2, 1).unwrap();
    let out = compose(canvas, 2, 4).unwrap();
    assert_eq!(
        out.pixels(),
        &vec![
            0, 0, 0, 0, 0, 0, 0, 0, //
            1, 2, 3, 4, 5, 6, 7, 8, //
            0, 0, 0, 0, 0, 0, 0, 0, //
            0, 0, 0, 0, 0, 0, 0, 0,
        ]
    );
}

#[test]
fn rendered_rows_sit_between_equal_margins() {
    let canvas = Frame::from_pixels(vec![255; 4 * 100 * 50], 100, 50).unwrap();
    let out = compose(canvas, 100, 100).unwrap();
    assert_eq!((out.width(), out.height()), (100, 100));
    assert_eq!(out.pixels().len(), 40_000);
    for y in 0..100 {
        for x in 0..100 {
            for c in 0..4 {
                let want = if (25..75).contains(&y) { 255 } else { 0 };
                assert_eq!(channel(&out, x, y, c), want, "at ({x},{y},{c})");
            }
        }
    }
}

#[test]
fn every_pixel_comes_from_its_place_in_the_canvas() {
    let canvas = numbered(3, 2);
    let source = numbered(3, 2);
    let out = compose(canvas, 8, 7).unwrap();
    let (left, top) = (2, 2);
    for y in 0..7 {
        for x in 0..8 {
            for c in 0..4 {
                let inside = x >= left && x < left + 3 && y >= top && y < top + 2;
                let want = if inside { channel(&source, x - left, y - top, c) } else { 0 };
                assert_eq!(channel(&out, x, y, c), want, "at ({x},{y},{c})");
            }
        }
    }
}

#[test]
fn canvas_wider_than_the_target_loses_its_right_side() {
    let canvas = numbered(4, 1);
    let source = numbered(4, 1);
    let out = compose(canvas, 2, 3).unwrap();
    assert_eq!((out.width(), out.height()), (2, 3));
    for y in 0..3 {
        for x in 0..2 {
            for c in 0..4 {
                let want = if y == 1 { channel(&source, x, 0, c) } else { 0 };
                assert_eq!(channel(&out, x, y, c), want);
            }
        }
    }
}

#[test]
fn canvas_taller_than_the_target_loses_its_bottom() {
    let canvas = numbered(1, 5);
    let source = numbered(1, 5);
    let out = compose(canvas, 3, 2).unwrap();
    for y in 0..2 {
        for x in 0..3 {
            for c in 0..4 {
                let want = if x == 1 { channel(&source, 0, y, c) } else { 0 };
                assert_eq!(channel(&out, x, y, c), want);
            }
        }
    }
}

#[test]
fn canvas_without_area_leaves_a_transparent_frame() {
    let canvas = Frame::from_pixels(vec![], 0, 9).unwrap();
    let out = compose(canvas, 3, 2).unwrap();
    assert_eq!(out.pixels(), &vec![0u8; 24]);
}

#[test]
fn target_that_cannot_be_allocated_is_refused() {
    let canvas = numbered(2, 2);
    assert_eq!(
        compose(canvas, 0, 5).unwrap_err(),
        RenderError::Allocation { width: 0, height: 5 }
    );
    let canvas = numbered(2, 2);
    assert_eq!(
        compose(canvas, 5, 0).unwrap_err(),
        RenderError::Allocation { width: 5, height: 0 }
    );
    let canvas = numbered(2, 2);
    assert_eq!(
        compose(canvas, 0x2000_0000, 1).unwrap_err(),
        RenderError::Allocation { width: 0x2000_0000, height: 1 }
    );
    let canvas = numbered(2, 2);
    assert_eq!(
        compose(canvas, u32::MAX, u32::MAX).unwrap_err(),
        RenderError::Allocation { width: u32::MAX, height: u32::MAX }
    );
}

#[test]
fn canvas_of_target_size_needs_no_allocation() {
    let canvas = Frame::from_pixels(Vec::new(), 0, 5).unwrap();
    let out = compose(canvas, 0, 5).unwrap();
    assert_eq!((out.width(), out.height()), (0, 5));
    assert!(out.pixels().is_empty());
}
