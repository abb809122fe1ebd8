use close_chat::placement::{
    place_bottom_right, scale_length, window_size, LogicalSize, Monitor, PlacementGeometry,
    ScaleFactor, LOGICAL_HEIGHT, LOGICAL_WIDTH, UNIT_SCALE_BITS,
};

fn scale(value: f64) -> ScaleFactor {
    ScaleFactor::from_bits(value.to_bits())
}

fn full_hd() -> Monitor {
    Monitor { x: 0, y: 0, width: 1920, height: 1080 }
}

#[test]
fn placement_at_scale_one() {
    let g = place_bottom_right(Some(full_hd()), Some(scale(1.0)), window_size());
    assert_eq!(g, Some(PlacementGeometry { x: 1520, y: 580, width: 400, height: 500 }));
}

#[test]
fn placement_at_scale_two() {
    let g = place_bottom_right(Some(full_hd()), Some(scale(2.0)), window_size());
    assert_eq!(g, Some(PlacementGeometry { x: 1120, y: 80, width: 800, height: 1000 }));
}

#[test]
fn placement_is_skipped_without_a_monitor() {
    assert_eq!(place_bottom_right(None, Some(scale(1.0)), window_size()), None);
    assert_eq!(place_bottom_right(None, None, window_size()), None);
}

#[test]
fn missing_scale_defaults_to_one() {
    let g = place_bottom_right(Some(full_hd()), None, window_size());
    assert_eq!(g, Some(PlacementGeometry { x: 1520, y: 580, width: 400, height: 500 }));
    assert_eq!(ScaleFactor::or_one(None), scale(1.0));
    assert_eq!(ScaleFactor::or_one(Some(scale(2.0))), scale(2.0));
    assert_eq!(ScaleFactor::one().bits, 1.0f64.to_bits());
    assert_eq!(UNIT_SCALE_BITS, 1.0f64.to_bits());
}

#[test]
fn window_size_is_400_by_500() {
    assert_eq!(window_size(), LogicalSize { width: 400, height: 500 });
    assert_eq!((LOGICAL_WIDTH, LOGICAL_HEIGHT), (400, 500));
}

#[test]
fn bottom_right_corners_coincide() {
    let monitors = [
        full_hd(),
        Monitor { x: 1920, y: -200, width: 2560, height: 1440 },
        Monitor { x: -3840, y: 0, width: 3840, height: 2160 },
        Monitor { x: 0, y: 0, width: 300, height: 200 },
    ];
    for m in monitors {
        for s in [1.0, 1.25, 1.5, 1.75, 2.0, 3.0] {
            let g = place_bottom_right(Some(m), Some(scale(s)), window_size()).unwrap();
            assert_eq!(g.x as i64 + g.width as i64, m.x as i64 + m.width as i64);
            assert_eq!(g.y as i64 + g.height as i64, m.y as i64 + m.height as i64);
            assert_eq!(g.width, (400.0 * s).round() as u32);
            assert_eq!(g.height, (500.0 * s).round() as u32);
        }
    }
}

#[test]
fn placement_on_an_offset_monitor() {
    let m = Monitor { x: 1920, y: -200, width: 2560, height: 1440 };
    let g = place_bottom_right(Some(m), Some(scale(1.5)), window_size());
    assert_eq!(g, Some(PlacementGeometry { x: 3880, y: 490, width: 600, height: 750 }));
}

#[test]
fn a_window_larger_than_the_monitor_starts_left_of_it() {
    let m = Monitor { x: 0, y: 0, width: 300, height: 200 };
    let g = place_bottom_right(Some(m), Some(scale(1.0)), window_size());
    assert_eq!(g, Some(PlacementGeometry { x: -100, y: -300, width: 400, height: 500 }));
}

#[test]
fn fractional_scales_round_to_the_nearest_pixel() {
    assert_eq!(scale_length(400, scale(1.25)), Some(500));
    assert_eq!(scale_length(500, scale(1.25)), Some(625));
    assert_eq!(scale_length(3, scale(0.5)), Some(2));
    assert_eq!(scale_length(1, scale(0.5)), Some(1));
    assert_eq!(scale_length(1, scale(0.25)), Some(0));
    assert_eq!(scale_length(1, scale(0.75)), Some(1));
    assert_eq!(scale_length(7, scale(1.5)), Some(11));
    assert_eq!(scale_length(400, scale(1.3)), Some(520));
    assert_eq!(scale_length(500, scale(1.1)), Some(550));
    assert_eq!(scale_length(3, scale(1.0 / 3.0)), Some(1));
    assert_eq!(scale_length(400, scale(2.75)), Some(1100));
}

#[test]
fn scale_length_differs_from_its_argument() {
    assert_eq!(scale_length(400, scale(2.0)), Some(800));
    assert_eq!(scale_length(400, scale(0.5)), Some(200));
}

#[test]
fn zero_scales_to_zero() {
    assert_eq!(scale_length(0, scale(1.0)), Some(0));
    assert_eq!(scale_length(0, scale(1.0e300)), Some(0));
    assert_eq!(scale_length(400, scale(0.0)), Some(0));
    assert_eq!(scale_length(400, scale(f64::MIN_POSITIVE)), Some(0));
    assert_eq!(scale_length(400, ScaleFactor::from_bits(1)), Some(0));
    assert_eq!(scale_length(u32::MAX, scale(1.0e-30)), Some(0));
}

#[test]
fn unusable_scales_give_no_length() {
    assert_eq!(scale_length(400, scale(f64::NAN)), None);
    assert_eq!(scale_length(400, scale(f64::INFINITY)), None);
    assert_eq!(scale_length(400, scale(f64::NEG_INFINITY)), None);
    assert_eq!(scale_length(400, scale(-1.0)), None);
    assert_eq!(scale_length(400, scale(-0.0)), None);
    assert_eq!(scale_length(0, scale(f64::NAN)), None);
    assert_eq!(place_bottom_right(Some(full_hd()), Some(scale(f64::NAN)), window_size()), None);
    assert_eq!(place_bottom_right(Some(full_hd()), Some(scale(-2.0)), window_size()), None);
}

#[test]
fn lengths_beyond_32_bits_give_none() {
    assert_eq!(scale_length(1, scale(4294967295.0)), Some(u32::MAX));
    assert_eq!(scale_length(1, scale(4294967296.0)), None);
    assert_eq!(scale_length(1, scale(4294967295.5)), None);
    assert_eq!(scale_length(1, scale(4294967295.25)), Some(u32::MAX));
    assert_eq!(scale_length(u32::MAX, scale(1.0)), Some(u32::MAX));
    assert_eq!(scale_length(u32::MAX, scale(1.5)), None);
    assert_eq!(scale_length(400, scale(1.0e300)), None);
    assert_eq!(scale_length(400, scale(f64::MAX)), None);
    assert_eq!(scale_length(1, scale(9007199254740992.0)), None);
}

#[test]
fn coordinates_beyond_32_bits_give_none() {
    let far = Monitor { x: i32::MAX, y: 0, width: 1920, height: 1080 };
    assert_eq!(place_bottom_right(Some(far), Some(scale(1.0)), window_size()), None);
    let near = Monitor { x: i32::MAX - 1520, y: 0, width: 1920, height: 1080 };
    assert_eq!(
        place_bottom_right(Some(near), Some(scale(1.0)), window_size()),
        Some(PlacementGeometry { x: i32::MAX, y: 580, width: 400, height: 500 })
    );
    let low = Monitor { x: i32::MIN, y: i32::MIN, width: 0, height: 0 };
    assert_eq!(place_bottom_right(Some(low), Some(scale(1.0)), window_size()), None);
    let wide = Monitor { x: 0, y: 0, width: u32::MAX, height: 1080 };
    assert_eq!(place_bottom_right(Some(wide), Some(scale(1.0)), window_size()), None);
}
