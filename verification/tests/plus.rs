use gadgetdeck::{KnobDirection, KnobEvent, KnobIndex, PlusInputState, TouchEvent, TouchEventType};

#[test]
fn test_touch_event_short_tap() {
    let event = TouchEvent::short_tap(400, 50);
    assert_eq!(event.event_type, TouchEventType::Short);
    assert_eq!(event.x, 400);
    assert_eq!(event.y, 50);
    assert_eq!(event.segment(), 2);
}

#[test]
fn test_touch_event_drag() {
    let event = TouchEvent::drag(100, 50, 600, 50);
    assert_eq!(event.event_type, TouchEventType::Drag);
    assert_eq!(event.x, 100);
    assert_eq!(event.x_end, 600);
    assert_eq!(event.segment(), 0);
    assert_eq!(event.end_segment(), 3);
}

#[test]
fn test_touch_event_report() {
    let event = TouchEvent::short_tap(100, 50);
    let report = event.build_input_report();

    assert_eq!(report.len(), 512);
    assert_eq!(report[0], 0x01);
    assert_eq!(report[1], 0x02);
    assert_eq!(report[4], 0x01);
    assert_eq!(report[6], 100);
    assert_eq!(report[7], 0);
    assert_eq!(report[8], 50);
    assert_eq!(report[9], 0);
}

#[test]
fn test_drag_event_report() {
    let event = TouchEvent::drag(100, 25, 500, 75);
    let report = event.build_input_report();

    assert_eq!(report[0], 0x01);
    assert_eq!(report[1], 0x02);
    assert_eq!(report[4], 0x03);
    assert_eq!(report[6], 100);
    assert_eq!(report[8], 25);
    assert_eq!(report[10], 244);
    assert_eq!(report[11], 1);
    assert_eq!(report[12], 75);
}

#[test]
fn test_knob_event_press_report() {
    let event = KnobEvent::Press(KnobIndex::B);
    let report = event.build_input_report();

    assert_eq!(report.len(), 512);
    assert_eq!(report[0], 0x01);
    assert_eq!(report[1], 0x03);
    assert_eq!(report[4], 0x00);
    assert_eq!(report[5], 0x00);
    assert_eq!(report[6], 0x01);
    assert_eq!(report[7], 0x00);
    assert_eq!(report[8], 0x00);
}

#[test]
fn test_knob_event_turn_report() {
    let event = KnobEvent::Turn { knob: KnobIndex::C, direction: KnobDirection::CounterClockwise, steps: 1 };
    let report = event.build_input_report();

    assert_eq!(report[0], 0x01);
    assert_eq!(report[1], 0x03);
    assert_eq!(report[4], 0x01);
    assert_eq!(report[5], 0x00);
    assert_eq!(report[6], 0x00);
    assert_eq!(report[7], 0xFF);
    assert_eq!(report[8], 0x00);
}

#[test]
fn test_plus_input_state_touch() {
    let mut state = PlusInputState::new();

    assert!(state.take_touch_event().is_none());

    state.tap(200, 50);

    let event = state.take_touch_event().expect("Should have event");
    assert_eq!(event.event_type, TouchEventType::Short);
    assert_eq!(event.x, 200);
    assert_eq!(event.y, 50);

    assert!(state.take_touch_event().is_none());
}

#[test]
fn test_plus_input_state_swipe() {
    let mut state = PlusInputState::new();

    state.swipe(50, 50, 750, 50);

    let event = state.take_touch_event().expect("Should have event");
    assert_eq!(event.event_type, TouchEventType::Drag);
    assert_eq!(event.x, 50);
    assert_eq!(event.x_end, 750);
}

#[test]
fn test_plus_input_state_knob() {
    let mut state = PlusInputState::new();

    assert!(!state.is_knob_pressed(KnobIndex::A));
    assert!(!state.take_knob_changed());

    state.press_knob(KnobIndex::A);
    assert!(state.is_knob_pressed(KnobIndex::A));
    assert!(state.take_knob_changed());
    assert!(!state.take_knob_changed());

    state.release_knob(KnobIndex::A);
    assert!(!state.is_knob_pressed(KnobIndex::A));
    assert!(state.take_knob_changed());
}

#[test]
fn test_plus_input_state_knob_turn() {
    let mut state = PlusInputState::new();

    state.turn_knob(KnobIndex::B, 3);
    assert!(state.take_knob_changed());

    let rotation = state.take_knob_rotation(KnobIndex::B);
    assert_eq!(rotation, 3);

    assert_eq!(state.take_knob_rotation(KnobIndex::B), 0);
}

#[test]
fn test_plus_input_state_build_reports() {
    let mut state = PlusInputState::new();

    state.press_knob(KnobIndex::D);
    let press_report = state.build_knob_press_report();
    assert_eq!(press_report[8], 0x01);

    let turn_report = state.build_knob_turn_report(KnobIndex::A, -2);
    assert_eq!(turn_report[4], 0x01);
    assert_eq!(turn_report[5], 0xFE);
}

#[test]
fn touch_coordinates_are_clamped_to_the_strip() {
    let event = TouchEvent::long_press(5000, 300);
    assert_eq!(event.event_type, TouchEventType::Long);
    assert_eq!((event.x, event.y), (799, 99));
    assert_eq!(event.segment(), 3);
    let swipe = TouchEvent::swipe_horizontal(900, 10);
    assert_eq!((swipe.x, swipe.y, swipe.x_end, swipe.y_end), (799, 50, 10, 50));
    assert_eq!(swipe.end_segment(), 0);
}

#[test]
fn latest_touch_event_wins() {
    let mut state = PlusInputState::new();
    state.tap(10, 10);
    state.long_press(20, 20);
    let event = state.take_touch_event().unwrap();
    assert_eq!(event.event_type, TouchEventType::Long);
    assert_eq!(event.x, 20);
}

#[test]
fn knob_turns_accumulate_and_wrap() {
    let mut state = PlusInputState::new();
    state.turn_knob(KnobIndex::C, 100);
    state.turn_knob(KnobIndex::C, 100);
    assert_eq!(state.take_knob_rotation(KnobIndex::C), -56);
    state.turn_knob(KnobIndex::C, 0);
    assert!(state.take_knob_changed());
    assert!(!state.take_knob_changed());
    state.turn_knob(KnobIndex::C, 0);
    assert!(!state.take_knob_changed());
}

#[test]
fn knob_turn_bytes() {
    let state = PlusInputState::default();
    assert_eq!(state.build_knob_turn_report(KnobIndex::B, 120)[6], 120);
    assert_eq!(state.build_knob_turn_report(KnobIndex::B, 127)[6], 127);
    assert_eq!(state.build_knob_turn_report(KnobIndex::B, 0)[6], 0);
    assert_eq!(state.build_knob_turn_report(KnobIndex::B, -128)[6], 0x80);
    let cw = KnobEvent::Turn { knob: KnobIndex::D, direction: KnobDirection::Clockwise, steps: 200 };
    assert_eq!(cw.build_input_report()[8], 127);
    let release = KnobEvent::Release(KnobIndex::A).build_input_report();
    assert_eq!(&release[..9], &[0x01, 0x03, 0x05, 0x00, 0x00, 0x00, 0x00, 0x00, 0x00]);
}

#[test]
fn knob_index_from_byte() {
    assert_eq!(KnobIndex::from(0), KnobIndex::A);
    assert_eq!(KnobIndex::from(2), KnobIndex::C);
    assert_eq!(KnobIndex::from(9), KnobIndex::D);
    assert_eq!(KnobIndex::from(1).index(), 1);
}

#[test]
fn test_knob_turn_large_counter_clockwise_stays_negative() {
    for steps in [128u8, 129, 200, 255] {
        let event = KnobEvent::Turn { knob: KnobIndex::A, direction: KnobDirection::CounterClockwise, steps };
        let report = event.build_input_report();
        assert_eq!(report[5], 0x80);
        assert!((report[5] as i8) < 0);
    }
    let event = KnobEvent::Turn { knob: KnobIndex::A, direction: KnobDirection::CounterClockwise, steps: 127 };
    assert_eq!(event.build_input_report()[5], 0x81);
    let event = KnobEvent::Turn { knob: KnobIndex::A, direction: KnobDirection::Clockwise, steps: 200 };
    assert_eq!(event.build_input_report()[5], 0x7F);
}
