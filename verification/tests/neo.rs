use gadgetdeck::{NeoInputState, NeoTouchPoint, RgbColor};

#[test]
fn test_touch_point_indices() {
    assert_eq!(NeoTouchPoint::Left.button_index(), 8);
    assert_eq!(NeoTouchPoint::Right.button_index(), 9);
    assert_eq!(NeoTouchPoint::Left.key_offset(), 8);
    assert_eq!(NeoTouchPoint::Right.key_offset(), 9);
}

#[test]
fn test_rgb_color() {
    let red = RgbColor::red();
    assert_eq!(red.r, 255);
    assert_eq!(red.g, 0);
    assert_eq!(red.b, 0);

    let custom = RgbColor::new(128, 64, 32);
    assert_eq!(custom.r, 128);
    assert_eq!(custom.g, 64);
    assert_eq!(custom.b, 32);
}

#[test]
fn test_neo_input_state() {
    let mut state = NeoInputState::new();

    let left_color = state.get_led_color(NeoTouchPoint::Left);
    assert_eq!(left_color, RgbColor::black());

    state.set_led_color(NeoTouchPoint::Left, RgbColor::red());
    let left_color = state.get_led_color(NeoTouchPoint::Left);
    assert_eq!(left_color, RgbColor::red());

    let right_color = state.get_led_color(NeoTouchPoint::Right);
    assert_eq!(right_color, RgbColor::black());
}

#[test]
fn test_led_color_report() {
    let mut state = NeoInputState::new();
    state.set_led_color(NeoTouchPoint::Right, RgbColor::new(100, 150, 200));

    let report = state.build_led_color_report(NeoTouchPoint::Right);
    assert_eq!(report[0], 0x03);
    assert_eq!(report[1], 0x06);
    assert_eq!(report[2], 9);
    assert_eq!(report[3], 100);
    assert_eq!(report[4], 150);
    assert_eq!(report[5], 200);
}

#[test]
fn named_colors_and_touch_point_from_byte() {
    assert_eq!(RgbColor::white(), RgbColor::new(255, 255, 255));
    assert_eq!(RgbColor::green(), RgbColor::new(0, 255, 0));
    assert_eq!(RgbColor::blue(), RgbColor::new(0, 0, 255));
    assert_eq!(RgbColor::default(), RgbColor::black());
    assert_eq!(NeoTouchPoint::from(0), NeoTouchPoint::Left);
    assert_eq!(NeoTouchPoint::from(7), NeoTouchPoint::Right);
    let state = NeoInputState::default();
    let report = state.build_led_color_report(NeoTouchPoint::Left);
    assert_eq!(report.len(), 32);
    assert_eq!(&report[..6], &[0x03, 0x06, 8, 0, 0, 0]);
}
