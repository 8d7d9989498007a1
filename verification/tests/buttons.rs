use gadgetdeck::{ButtonState, StreamDeckModel};

#[test]
fn test_button_state_mini() {
    let mut state = ButtonState::new(StreamDeckModel::Mini);
    assert_eq!(state.num_buttons(), 6);

    for i in 0..6 {
        assert!(!state.is_pressed(i));
    }

    state.press(0);
    assert!(state.is_pressed(0));
    assert!(state.take_changed());
    assert!(!state.take_changed());

    state.release(0);
    assert!(!state.is_pressed(0));
    assert!(state.take_changed());
}

#[test]
fn test_input_report_format_mini() {
    let mut state = ButtonState::new(StreamDeckModel::Mini);
    state.press(0);
    state.press(2);

    let report = state.build_input_report(StreamDeckModel::Mini);
    assert_eq!(report[0], 0x01);
    assert_eq!(report[1], 0x01);
    assert_eq!(report[2], 0x00);
    assert_eq!(report[3], 0x01);
}

#[test]
fn test_input_report_format_mk2() {
    let mut state = ButtonState::new(StreamDeckModel::Mk2);
    state.press(0);
    state.press(5);

    let report = state.build_input_report(StreamDeckModel::Mk2);
    assert_eq!(report[0], 0x01);
    assert_eq!(report[1], 0x00);
    assert_eq!(report[2], 15);
    assert_eq!(report[3], 0);
    assert_eq!(report[4], 0x01);
    assert_eq!(report[5], 0x00);
    assert_eq!(report[9], 0x01);
}

#[test]
fn test_input_report_format_xl() {
    let mut state = ButtonState::new(StreamDeckModel::Xl);
    state.press(31);

    let report = state.build_input_report(StreamDeckModel::Xl);
    assert_eq!(report.len(), 512);
    assert_eq!(report[0], 0x01);
    assert_eq!(report[1], 0x00);
    assert_eq!(report[2], 32);
    assert_eq!(report[3], 0);
    assert_eq!(report[35], 0x01);
}

#[test]
fn test_input_report_length_mk2() {
    let state = ButtonState::new(StreamDeckModel::Mk2);
    let report = state.build_input_report(StreamDeckModel::Mk2);
    assert_eq!(report.len(), 512);
}

#[test]
fn mini_report_is_seventeen_bytes_and_ignores_extra_slots() {
    let mut state = ButtonState::new(StreamDeckModel::Mini);
    state.press(5);
    state.press(20);
    let report = state.build_input_report(StreamDeckModel::Mini);
    assert_eq!(report.len(), 17);
    assert_eq!(report[6], 0x01);
    assert!(report[7..].iter().all(|b| *b == 0));
}

#[test]
fn pedal_report_layout() {
    let mut state = ButtonState::new(StreamDeckModel::Pedal);
    assert_eq!(state.num_buttons(), 3);
    state.press(1);
    let report = state.build_input_report(StreamDeckModel::Pedal);
    assert_eq!(report, vec![0x01, 0x00, 0x03, 0x00, 0x00, 0x01, 0x00, 0x00]);
}

#[test]
fn plus_and_neo_use_the_key_count_report() {
    let mut state = ButtonState::new(StreamDeckModel::Plus);
    assert_eq!(state.num_buttons(), 8);
    state.press(7);
    let report = state.build_input_report(StreamDeckModel::Plus);
    assert_eq!(report.len(), 512);
    assert_eq!(report[2], 8);
    assert_eq!(report[11], 0x01);

    let neo = ButtonState::new(StreamDeckModel::Neo);
    assert_eq!(neo.num_buttons(), 10);
    assert_eq!(neo.build_input_report(StreamDeckModel::Neo)[2], 10);
}

#[test]
fn press_is_idempotent_and_out_of_range_is_ignored() {
    let mut state = ButtonState::new(StreamDeckModel::Xl);
    state.press(3);
    assert!(state.take_changed());
    state.press(3);
    assert!(!state.take_changed());
    state.release(4);
    assert!(!state.take_changed());
    state.press(32);
    assert!(!state.is_pressed(32));
    assert!(!state.take_changed());
    state.release(200);
    assert!(!state.take_changed());
}

#[test]
fn clone_keeps_the_state() {
    let mut state = ButtonState::new(StreamDeckModel::Mini);
    state.press(1);
    let copy = state.clone();
    assert!(copy.is_pressed(1));
    assert_eq!(copy.num_buttons(), 6);
}
