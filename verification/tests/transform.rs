use svg_cache::plan;
use svg_cache::units::UNITS_PER_PIXEL;
use svg_cache::ConfigSnapshot;
use svg_cache::IntrinsicSize;
use svg_cache::Length;
use svg_cache::RenderError;
use svg_cache::Scale;

fn snapshot(width: u32, height: u32, keep: bool, clip: (u32, u32, u32, u32)) -> ConfigSnapshot {
    let (top, bottom, left, right) = clip;
    ConfigSnapshot::new(
        String::from("image.svg"),
        (255, 255, 255),
        width,
        height,
        keep,
        top,
        bottom,
        left,
        right,
    )
}

fn pixels(width: u32, height: u32) -> IntrinsicSize {
    IntrinsicSize {
        width: Length::from_pixels(width),
        height: Length::from_pixels(height),
    }
}

#[test]
fn clip_that_eats_the_width_is_degenerate() {
    let s = snapshot(100, 100, true, (0, 0, 60, 60));
    assert_eq!(
        plan(&s, pixels(100, 100)),
        Err(RenderError::DegenerateSize { width: 0, height: 100 })
    );
    let s = snapshot(100, 100, false, (0, 0, 60, 60));
    assert_eq!(
        plan(&s, pixels(100, 100)),
        Err(RenderError::DegenerateSize { width: 0, height: 100 })
    );
}

#[test]
fn clip_that_eats_the_height_is_degenerate() {
    let s = snapshot(100, 80, true, (50, 50, 0, 0));
    assert_eq!(
        plan(&s, pixels(100, 100)),
        Err(RenderError::DegenerateSize { width: 100, height: 0 })
    );
}

#[test]
fn clip_that_eats_everything_is_degenerate() {
    let s = snapshot(100, 100, true, (8192, 8192, 8192, 8192));
    assert_eq!(
        plan(&s, pixels(100, 100)),
        Err(RenderError::DegenerateSize { width: 0, height: 0 })
    );
}

#[test]
fn source_without_extent_is_degenerate() {
    let s = snapshot(100, 100, false, (0, 0, 0, 0));
    let size = IntrinsicSize { width: Length::zero(), height: Length::from_pixels(10) };
    assert_eq!(
        plan(&s, size),
        Err(RenderError::DegenerateSize { width: 0, height: 100 })
    );
}

#[test]
fn target_without_extent_is_degenerate() {
    let s = snapshot(0, 100, false, (0, 0, 0, 0));
    assert_eq!(
        plan(&s, pixels(10, 10)),
        Err(RenderError::DegenerateSize { width: 0, height: 100 })
    );
    let s = snapshot(0, 100, true, (0, 0, 0, 0));
    assert_eq!(
        plan(&s, pixels(10, 10)),
        Err(RenderError::DegenerateSize { width: 0, height: 0 })
    );
}

#[test]
fn common_scale_leaves_slack_on_the_other_axis() {
    let s = snapshot(100, 100, true, (0, 0, 0, 0));
    let p = plan(&s, pixels(200, 100)).unwrap();
    assert_eq!((p.canvas_width, p.canvas_height), (100, 50));
    let half = Scale { target: 100, source: Length::from_pixels(200) };
    assert_eq!(p.scale_x, half);
    assert_eq!(p.scale_y, half);
    assert_eq!((p.offset_x, p.offset_y), (0, 0));
    assert_eq!(p.clipped_width, Length::from_pixels(200));
    assert_eq!(p.clipped_height, Length::from_pixels(100));
}

#[test]
fn common_scale_limited_by_the_height() {
    let s = snapshot(100, 100, true, (0, 0, 0, 0));
    let p = plan(&s, pixels(100, 400)).unwrap();
    assert_eq!((p.canvas_width, p.canvas_height), (25, 100));
    let quarter = Scale { target: 100, source: Length::from_pixels(400) };
    assert_eq!(p.scale_x, quarter);
    assert_eq!(p.scale_y, quarter);
}

#[test]
fn independent_scales_fill_the_target() {
    let s = snapshot(100, 100, false, (0, 0, 0, 0));
    let p = plan(&s, pixels(200, 100)).unwrap();
    assert_eq!((p.canvas_width, p.canvas_height), (100, 100));
    assert_eq!(p.scale_x, Scale { target: 100, source: Length::from_pixels(200) });
    assert_eq!(p.scale_y, Scale { target: 100, source: Length::from_pixels(100) });
}

#[test]
fn canvas_is_rounded_up() {
    let s = snapshot(100, 100, true, (0, 0, 0, 0));
    let p = plan(&s, pixels(3, 2)).unwrap();
    assert_eq!((p.canvas_width, p.canvas_height), (100, 67));
    let p = plan(&s, pixels(2, 3)).unwrap();
    assert_eq!((p.canvas_width, p.canvas_height), (67, 100));
    let s = snapshot(10, 1000, true, (0, 0, 0, 0));
    let p = plan(&s, pixels(1000, 1)).unwrap();
    assert_eq!((p.canvas_width, p.canvas_height), (10, 1));
}

#[test]
fn square_source_in_square_target_ties() {
    let s = snapshot(64, 64, true, (0, 0, 0, 0));
    let p = plan(&s, pixels(24, 24)).unwrap();
    assert_eq!((p.canvas_width, p.canvas_height), (64, 64));
    assert_eq!(p.scale_x, Scale { target: 64, source: Length::from_pixels(24) });
    assert_eq!(p.scale_y, Scale { target: 64, source: Length::from_pixels(24) });
}

#[test]
fn clip_moves_and_shrinks_the_source() {
    let s = snapshot(100, 100, true, (5, 15, 10, 10));
    let p = plan(&s, pixels(100, 100)).unwrap();
    assert_eq!(p.clipped_width, Length::from_pixels(80));
    assert_eq!(p.clipped_height, Length::from_pixels(80));
    assert_eq!((p.offset_x, p.offset_y), (10, 5));
    assert_eq!((p.canvas_width, p.canvas_height), (100, 100));

    let s = snapshot(100, 100, true, (0, 0, 10, 10));
    let p = plan(&s, pixels(100, 100)).unwrap();
    assert_eq!((p.canvas_width, p.canvas_height), (80, 100));
    assert_eq!(p.scale_x, Scale { target: 100, source: Length::from_pixels(100) });
    assert_eq!(p.scale_y, Scale { target: 100, source: Length::from_pixels(100) });

    let s = snapshot(100, 100, false, (0, 0, 10, 10));
    let p = plan(&s, pixels(100, 100)).unwrap();
    assert_eq!((p.canvas_width, p.canvas_height), (100, 100));
    assert_eq!(p.scale_x, Scale { target: 100, source: Length::from_pixels(80) });
    assert_eq!(p.scale_y, Scale { target: 100, source: Length::from_pixels(100) });
}

#[test]
fn fractional_source_sizes_are_exact() {
    let half = UNITS_PER_PIXEL / 2;
    let size = IntrinsicSize {
        width: Length::from_raw(12 * UNITS_PER_PIXEL + half),
        height: Length::from_pixels(5),
    };
    let s = snapshot(100, 100, true, (0, 0, 0, 0));
    let p = plan(&s, size).unwrap();
    assert_eq!((p.canvas_width, p.canvas_height), (100, 40));
    let size = IntrinsicSize {
        width: Length::from_raw(12 * UNITS_PER_PIXEL + half + 1),
        height: Length::from_pixels(5),
    };
    let p = plan(&s, size).unwrap();
    assert_eq!((p.canvas_width, p.canvas_height), (100, 40));
    let size = IntrinsicSize {
        width: Length::from_raw(12 * UNITS_PER_PIXEL + half - 1),
        height: Length::from_pixels(5),
    };
    let p = plan(&s, size).unwrap();
    assert_eq!((p.canvas_width, p.canvas_height), (100, 41));
}

#[test]
fn extreme_sizes_do_not_overflow() {
    let size = IntrinsicSize { width: Length::from_raw(u64::MAX), height: Length::from_raw(1) };
    let s = snapshot(u32::MAX, u32::MAX, true, (0, 0, 0, 0));
    let p = plan(&s, size).unwrap();
    assert_eq!((p.canvas_width, p.canvas_height), (u32::MAX, 1));
    let size = IntrinsicSize { width: Length::from_raw(1), height: Length::from_raw(u64::MAX) };
    let p = plan(&s, size).unwrap();
    assert_eq!((p.canvas_width, p.canvas_height), (1, u32::MAX));
    let size = IntrinsicSize {
        width: Length::from_raw(u64::MAX),
        height: Length::from_raw(u64::MAX),
    };
    let p = plan(&s, size).unwrap();
    assert_eq!((p.canvas_width, p.canvas_height), (u32::MAX, u32::MAX));
}

#[test]
fn canvas_never_exceeds_the_target() {
    for w in 1..40u32 {
        for h in 1..40u32 {
            let s = snapshot(17, 23, true, (0, 0, 0, 0));
            let p = plan(&s, pixels(w, h)).unwrap();
            assert!(p.canvas_width >= 1 && p.canvas_width <= 17);
            assert!(p.canvas_height >= 1 && p.canvas_height <= 23);
            assert!(p.canvas_width == 17 || p.canvas_height == 23);
            let s = snapshot(17, 23, false, (0, 0, 0, 0));
            let p = plan(&s, pixels(w, h)).unwrap();
            assert_eq!((p.canvas_width, p.canvas_height), (17, 23));
        }
    }
}
