use weather_panel::layout::{gridlines, pos_x, scale, tmp_graph_height, LayoutConfig, Range};

#[test]
fn scale_of_example_range() {
    // 120 / ((20 + 5) - (-5 - 5)) = 120 / 35
    assert_eq!(scale(-5, 20, 120), 3);
    // 120 / ((15 + 5) - (-5 - 5)) = 120 / 30
    assert_eq!(scale(-5, 15, 120), 4);
}

#[test]
fn scale_of_flat_range_uses_margin() {
    assert_eq!(scale(10, 10, 120), 12);
}

#[test]
fn scale_clamps_wide_range_to_one() {
    assert_eq!(scale(-100, 400, 120), 1);
    assert_eq!(scale(0, 200, 120), 1);
}

#[test]
fn scale_clamps_inverted_range_to_one() {
    assert_eq!(scale(20, -20, 120), 1);
    assert_eq!(scale(20, 10, 120), 1);
}

#[test]
fn range_with_negative_minimum() {
    let r = Range::new(-5, 15, Some(25), 120);
    assert_eq!(r.scale, 4);
    assert_eq!(r.offset, 65);
    assert_eq!(r.pos_y(0), -65);
    let r = Range::new(-5, 20, Some(25), 120);
    assert_eq!(r.scale, 3);
    assert_eq!(r.offset, 55);
    assert_eq!(r.pos_y(0), -55);
}

#[test]
fn range_with_positive_minimum_has_base_offset_only() {
    let r = Range::new(3, 20, Some(25), 120);
    assert_eq!(r.scale, 4);
    assert_eq!(r.offset, 25);
    let r = Range::new(3, 20, None, 120);
    assert_eq!(r.offset, 0);
}

#[test]
fn pos_y_rounds_half_away_from_zero() {
    let r = Range::new(-5, 15, Some(25), 120);
    assert_eq!(r.pos_y(149), -69);
    assert_eq!(r.pos_y(150), -73);
    assert_eq!(r.pos_y(-150), -57);
    assert_eq!(r.pos_y(-149), -61);
}

#[test]
fn pos_y_does_not_increase_with_temperature() {
    let r = Range::new(-12, 31, Some(80), 160);
    let mut last = r.pos_y(-2000);
    let mut t = -2000;
    while t <= 4000 {
        let y = r.pos_y(t);
        assert!(y <= last);
        last = y;
        t += 37;
    }
    assert!(r.pos_y(1000) < r.pos_y(0));
}

#[test]
fn pos_x_uses_the_display_multiplier() {
    let small = LayoutConfig::epd4in2();
    let large = LayoutConfig::epd7in5bc();
    assert_eq!(pos_x(&small, 0, 0), 0);
    assert_eq!(pos_x(&small, 1, 4), 120);
    assert_eq!(pos_x(&small, 3, 8), 320);
    assert_eq!(pos_x(&large, 3, 8), 640);
}

#[test]
fn pos_x_strictly_increases_with_combined_index() {
    let c = LayoutConfig::epd4in2();
    let mut last = -1;
    for day in 0..4 {
        for slot in 0..8 {
            let x = pos_x(&c, day, slot);
            assert!(x > last);
            last = x;
        }
    }
    assert_eq!(pos_x(&c, 1, 0), pos_x(&c, 0, 8));
}

#[test]
fn gridlines_of_example_range() {
    let c = LayoutConfig::epd4in2();
    assert_eq!(gridlines(&c, -5, 20), vec![-10, 0, 10, 20]);
}

#[test]
fn gridlines_follow_the_display_candidates() {
    let c = LayoutConfig::epd7in5bc();
    assert_eq!(gridlines(&c, -40, 60), vec![-20, -10, 0, 10, 20, 30, 40]);
    assert_eq!(gridlines(&c, 100, 120), Vec::<i32>::new());
    assert_eq!(gridlines(&c, 5, 5), vec![0, 10]);
}

#[test]
fn graph_height_per_display() {
    assert_eq!(tmp_graph_height(&LayoutConfig::epd4in2()), 120);
    assert_eq!(tmp_graph_height(&LayoutConfig::epd7in5bc()), 160);
}
