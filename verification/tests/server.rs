use gadgetdeck::server::api::{
    check_button, check_knob, check_led, check_touchscreen, get_led_request, led_colors, led_point,
    press_button_request, release_button_request, set_led_request, ApiError,
};
use gadgetdeck::server::encoding::base64_fits;
use gadgetdeck::server::messages::{
    snapshot_encodable, button_state_infos, buttons_response, buttons_update_message, connect_messages, image_content_type,
    image_update_message, images_response, knobs_response, lcd_update_message, status_response, LcdSegment,
    LcdStore, WsMessage,
};
use gadgetdeck::{ButtonImage, ButtonState, ImageStore, KnobIndex, NeoInputState, NeoTouchPoint, RgbColor, StreamDeckModel};

fn image_text(data: &[u8]) -> String {
    let image = ButtonImage { key_index: 0, data: data.to_vec(), received_at: std::time::Instant::now() };
    match image_update_message(0, &image) {
        WsMessage::ImageUpdate { image_data, .. } => image_data,
        other => panic!("unexpected message {:?}", other),
    }
}

fn mk2_packet(key: u8, payload: &[u8]) -> Vec<u8> {
    let mut p = vec![0x02, 0x07, key, 1, payload.len() as u8, 0, 0, 0];
    p.extend_from_slice(payload);
    p
}

#[test]
fn test_base64_of_images() {
    assert_eq!(image_text(b""), "");
    assert_eq!(image_text(b"M"), "TQ==");
    assert_eq!(image_text(b"Ma"), "TWE=");
    assert_eq!(image_text(b"Man"), "TWFu");
    assert_eq!(image_text(b"hello"), "aGVsbG8=");
    assert_eq!(image_text(&[0xFF, 0xD8, 0xFF, 0xE0]), "/9j/4A==");
}

#[test]
fn test_lcd_update_message() {
    let seg = LcdSegment { x_offset: 200, y_offset: 0, width: 200, height: 100, image_data: b"hello world".to_vec() };
    match lcd_update_message(&seg) {
        WsMessage::LcdUpdate { x_offset, y_offset, width, height, image_data } => {
            assert_eq!((x_offset, y_offset, width, height), (200, 0, 200, 100));
            assert_eq!(image_data, "aGVsbG8gd29ybGQ=");
        }
        other => panic!("unexpected message {:?}", other),
    }
}

#[test]
fn test_button_messages_and_responses() {
    let mut state = ButtonState::new(StreamDeckModel::Mini);
    state.press(1);
    state.press(5);
    let infos = button_state_infos(&state);
    assert_eq!(infos.len(), 6);
    assert!(infos.iter().enumerate().all(|(i, b)| b.id as usize == i && b.pressed == (i == 1 || i == 5)));
    let resp = buttons_response(&state);
    assert_eq!(resp.buttons.len(), 6);
    assert!(resp.buttons[5].pressed && !resp.buttons[4].pressed);
    match buttons_update_message(&state) {
        WsMessage::ButtonsUpdate { buttons } => assert_eq!(buttons.len(), 6),
        other => panic!("unexpected message {:?}", other),
    }
}

#[test]
fn test_status_and_knobs_responses() {
    let s = status_response(StreamDeckModel::Plus, 8, true);
    assert_eq!(s.model, "Stream Deck +");
    assert_eq!(s.num_buttons, 8);
    assert!(s.running);
    let k = knobs_response(true);
    assert!(k.available);
    assert_eq!(k.knobs.iter().map(|k| (k.id, k.name.as_str())).collect::<Vec<_>>(), vec![(0, "A"), (1, "B"), (2, "C"), (3, "D")]);
    let none = knobs_response(false);
    assert!(!none.available && none.knobs.is_empty());
}

#[test]
fn test_images_response_and_content_type() {
    let mut store = ImageStore::new();
    store.process_packet(&mk2_packet(3, &[1, 2, 3])).unwrap();
    store.process_packet(&mk2_packet(20, &[4])).unwrap();
    let r = images_response(&store, 15);
    assert_eq!(r.available_images, vec![3]);
    assert_eq!(r.images_completed, 2);
    assert_eq!(r.packets_received, 2);
    assert_eq!(r.bytes_received, 11 + 9);
    assert_eq!(image_content_type(StreamDeckModel::Mk2), "image/jpeg");
    assert_eq!(image_content_type(StreamDeckModel::Mini), "image/bmp");
    assert_eq!(image_content_type(StreamDeckModel::Pedal), "image/bmp");
}

#[test]
fn test_lcd_store_keeps_latest_segment_per_position() {
    let mut lcd = LcdStore::new();
    assert!(lcd.get_all().is_empty());
    lcd.update(0, 0, 200, 100, vec![1]);
    lcd.update(200, 0, 200, 100, vec![2]);
    lcd.update(0, 0, 100, 50, vec![3, 3]);
    let all = lcd.get_all();
    assert_eq!(all.len(), 2);
    assert_eq!((all[0].x_offset, all[0].width, all[0].height, all[0].image_data.clone()), (0, 100, 50, vec![3, 3]));
    assert_eq!((all[1].x_offset, all[1].image_data.clone()), (200, vec![2]));
}

#[test]
fn test_connect_messages() {
    let mut buttons = ButtonState::new(StreamDeckModel::Mk2);
    buttons.press(2);
    let mut store = ImageStore::new();
    store.process_packet(&mk2_packet(7, b"Man")).unwrap();
    store.process_packet(&mk2_packet(1, b"M")).unwrap();
    let mut lcd = LcdStore::new();
    lcd.update(400, 0, 200, 100, b"Ma".to_vec());
    let msgs = connect_messages(&buttons, &store, &lcd);
    assert_eq!(msgs.len(), 4);
    match &msgs[0] {
        WsMessage::ButtonsUpdate { buttons } => {
            assert_eq!(buttons.len(), 15);
            assert!(buttons[2].pressed && !buttons[1].pressed);
        }
        other => panic!("unexpected message {:?}", other),
    }
    match (&msgs[1], &msgs[2]) {
        (
            WsMessage::ImageUpdate { button_id: 1, image_data: a },
            WsMessage::ImageUpdate { button_id: 7, image_data: b },
        ) => {
            assert_eq!(a, "TQ==");
            assert_eq!(b, "TWFu");
        }
        other => panic!("unexpected messages {:?}", other),
    }
    match &msgs[3] {
        WsMessage::LcdUpdate { x_offset: 400, image_data, .. } => assert_eq!(image_data, "TWE="),
        other => panic!("unexpected message {:?}", other),
    }
}

#[test]
fn test_button_requests() {
    let mut buttons = ButtonState::new(StreamDeckModel::Mini);
    assert_eq!(check_button(6, 5), Ok(()));
    assert_eq!(check_button(6, 6), Err(ApiError::ButtonNotFound));
    assert_eq!(press_button_request(&mut buttons, 6), Err(ApiError::ButtonNotFound));
    assert!(!buttons.take_changed());
    assert_eq!(press_button_request(&mut buttons, 2), Ok(()));
    assert!(buttons.is_pressed(2));
    assert_eq!(release_button_request(&mut buttons, 2), Ok(()));
    assert!(!buttons.is_pressed(2));
    assert_eq!(ApiError::ButtonNotFound.status_code(), 404);
    assert_eq!(ApiError::NotPlusDevice.status_code(), 400);
}

#[test]
fn test_knob_and_touchscreen_checks() {
    assert_eq!(check_knob(true, 4), Err(ApiError::KnobNotFound));
    assert_eq!(check_knob(false, 4), Err(ApiError::KnobNotFound));
    assert_eq!(check_knob(false, 2), Err(ApiError::NotPlusDevice));
    assert_eq!(check_knob(true, 2), Ok(KnobIndex::C));
    assert_eq!(check_touchscreen(false), Err(ApiError::NotPlusDevice));
    assert_eq!(check_touchscreen(true), Ok(()));
    assert_eq!(ApiError::KnobNotFound.status_code(), 404);
}

#[test]
fn test_led_requests() {
    assert_eq!(led_point(8), Some(NeoTouchPoint::Left));
    assert_eq!(led_point(9), Some(NeoTouchPoint::Right));
    assert_eq!(led_point(3), None);
    assert_eq!(check_led(10, true, 10), Err(ApiError::ButtonNotFound));
    assert_eq!(check_led(10, false, 8), Err(ApiError::NotNeoDevice));
    assert_eq!(check_led(10, true, 3), Err(ApiError::NoLed(3)));

    let mut neo = NeoInputState::new();
    assert_eq!(set_led_request(&mut neo, 10, 9, RgbColor::new(1, 2, 3)), Ok(()));
    assert_eq!(set_led_request(&mut neo, 10, 4, RgbColor::new(9, 9, 9)), Err(ApiError::NoLed(4)));
    assert_eq!(get_led_request(&neo, 10, 9), Ok(RgbColor::new(1, 2, 3)));
    assert_eq!(get_led_request(&neo, 10, 8), Ok(RgbColor::black()));
    assert_eq!(get_led_request(&neo, 10, 12), Err(ApiError::ButtonNotFound));
    assert_eq!(led_colors(&neo), vec![(8, RgbColor::black()), (9, RgbColor::new(1, 2, 3))]);
    assert_eq!(ApiError::NoLed(4).status_code(), 400);
}

#[test]
fn test_base64_text_lengths() {
    for n in 0..10usize {
        let data = vec![0x5Au8; n];
        assert_eq!(image_text(&data).len(), (n + 2) / 3 * 4);
    }
}

#[test]
fn test_encodability_checks() {
    assert!(base64_fits(0));
    assert!(base64_fits(1 << 20));
    assert!(!base64_fits(usize::MAX));
    let mut store = ImageStore::new();
    store.process_packet(&mk2_packet(2, b"abc")).unwrap();
    let mut lcd = LcdStore::new();
    lcd.update(0, 0, 200, 100, vec![1, 2, 3]);
    assert!(snapshot_encodable(&store, &lcd));
}
