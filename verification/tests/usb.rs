use gadgetdeck::device::image::ImageError;
use gadgetdeck::usb::control::{
    classify_endpoint_error, get_request_reply, next_event_step, set_request_action, ControlRequest,
    EndpointErrorKind, EventPoll, GetReply, LoopStep, SetAction,
};
use gadgetdeck::usb::reports::{
    collect_plus_reports, handle_output_report, hid_descriptor_data, hid_interface_class, keepalive_due,
    OutputOutcome,
};
use gadgetdeck::{ButtonState, ImageStore, KnobIndex, PlusInputState, StreamDeckModel};

fn get_report(value: u16, length: u16) -> ControlRequest {
    ControlRequest { request_type: 0xA1, request: 0x01, value, index: 0, length }
}

#[test]
fn test_product_ids_and_names() {
    assert_eq!(StreamDeckModel::Mini.product_id(), 0x0063);
    assert_eq!(StreamDeckModel::Pedal.product_id(), 0x0086);
    assert_eq!(StreamDeckModel::Mk2.product_id(), 0x00B9);
    assert_eq!(StreamDeckModel::Xl.product_id(), 0x00BA);
    assert_eq!(StreamDeckModel::Plus.product_id(), 0x0084);
    assert_eq!(StreamDeckModel::Neo.product_id(), 0x009A);
    assert_eq!(StreamDeckModel::Plus.product_name(), "Stream Deck +");
    assert_eq!(StreamDeckModel::Mk2.product_name(), "Stream Deck MK.2");
    assert_eq!(StreamDeckModel::Xl.num_buttons(), 32);
    assert_eq!(StreamDeckModel::Neo.num_buttons(), 10);
    assert_eq!(StreamDeckModel::Mk2.key_matrix(), (5, 3));
    assert_eq!(StreamDeckModel::Plus.lcd_size(), (800, 100));
    assert_eq!(StreamDeckModel::Mini.image_format(), "BMP");
    assert_eq!(StreamDeckModel::Pedal.image_format(), "NONE");
    assert_eq!(StreamDeckModel::Xl.image_format(), "JPEG");
}

#[test]
fn test_usb_identity_wrappers() {
    let id = StreamDeckModel::Plus.usb_id();
    assert_eq!(id, usb_gadget::Id::new(0x0fd9, 0x0084));
    assert_eq!(StreamDeckModel::Mini.device_class(), usb_gadget::Class::new(0, 0, 0));
    let strings = StreamDeckModel::Xl.usb_strings("CL12K1A00042");
    assert_eq!(strings.manufacturer, "Elgato");
    assert_eq!(strings.product, "Stream Deck XL");
    assert_eq!(strings.serial_number, "CL12K1A00042");
    assert_eq!(hid_interface_class(StreamDeckModel::Mk2), usb_gadget::Class::new(0x03, 0, 0));
}

#[test]
fn test_version_report_mini() {
    let r = StreamDeckModel::Mini.version_report();
    assert_eq!(r.len(), 32);
    assert_eq!(r[0], 0xA1);
    assert_eq!(&r[1..5], &[0, 0, 0, 0]);
    assert_eq!(&r[5..15], b"1.0.170602");
    assert!(r[15..].iter().all(|&b| b == 0));
}

#[test]
fn test_version_report_plus() {
    let r = StreamDeckModel::Plus.version_report();
    assert_eq!(r[0], 0x05);
    assert_eq!(&r[5..13], b"1.0.0.0\0");
}

#[test]
fn test_serial_report_mk2_and_truncation() {
    let r = StreamDeckModel::Mk2.serial_report("ABC");
    assert_eq!(r.len(), 32);
    assert_eq!(&r[..5], &[0x06, 3, b'A', b'B', b'C']);
    assert!(r[5..].iter().all(|&b| b == 0));

    let long = StreamDeckModel::Mk2.serial_report("0123456789ABCDEFGH");
    assert_eq!(long[1], 14);
    assert_eq!(&long[2..16], b"0123456789ABCD");
    assert_eq!(long[16], 0);

    let mini = StreamDeckModel::Mini.serial_report("XYZ");
    assert_eq!(mini[0], 0x03);
    assert_eq!(&mini[5..8], b"XYZ");
}

#[test]
fn test_unit_info_report() {
    let r = StreamDeckModel::Xl.unit_info_report().unwrap();
    assert_eq!(r.len(), 32);
    assert_eq!(&r[..13], &[0x08, 4, 8, 96, 0, 96, 0, 0x00, 0x04, 0x58, 0x02, 24, 0]);
    assert!(StreamDeckModel::Mini.unit_info_report().is_none());
    assert!(StreamDeckModel::Pedal.unit_info_report().is_none());
}

#[test]
fn test_feature_reports_by_id() {
    let m = StreamDeckModel::Mk2;
    assert_eq!(m.get_feature_report(0x05, "S").unwrap(), m.version_report());
    assert_eq!(m.get_feature_report(0x06, "S").unwrap(), m.serial_report("S"));
    let fw = m.get_feature_report(0x04, "S").unwrap();
    assert_eq!(fw[0], 0x04);
    assert_eq!(fw[1], 0x0C);
    assert_eq!(&fw[6..14], b"1.0.0.0\0");
    let ten = m.get_feature_report(0x0A, "S").unwrap();
    assert_eq!(&ten[..2], &[0x0A, 0x04]);
    assert!(m.get_feature_report(0x42, "S").is_none());
    assert!(StreamDeckModel::Mini.get_feature_report(0x04, "S").is_none());
}

#[test]
fn test_get_report_feature_is_padded() {
    match get_request_reply(StreamDeckModel::Mk2, "ABC", get_report(0x0306, 64)) {
        GetReply::Data(d) => {
            assert_eq!(d.len(), 64);
            assert_eq!(&d[..5], &[0x06, 3, b'A', b'B', b'C']);
            assert!(d[32..].iter().all(|&b| b == 0));
        }
        other => panic!("unexpected reply {:?}", other),
    }
}

#[test]
fn test_get_report_unknown_feature_is_zeros() {
    match get_request_reply(StreamDeckModel::Mk2, "ABC", get_report(0x0342, 16)) {
        GetReply::Data(d) => assert_eq!(d, vec![0u8; 16]),
        other => panic!("unexpected reply {:?}", other),
    }
}

#[test]
fn test_get_report_input_type_halts() {
    assert!(matches!(get_request_reply(StreamDeckModel::Mk2, "ABC", get_report(0x0101, 16)), GetReply::Halt));
}

#[test]
fn test_get_idle_protocol_and_descriptor() {
    let idle = ControlRequest { request_type: 0xA1, request: 0x02, value: 0, index: 0, length: 1 };
    assert!(matches!(get_request_reply(StreamDeckModel::Mini, "S", idle), GetReply::Data(d) if d == vec![0]));
    let proto = ControlRequest { request_type: 0xA1, request: 0x03, value: 0, index: 0, length: 1 };
    assert!(matches!(get_request_reply(StreamDeckModel::Mini, "S", proto), GetReply::Data(d) if d == vec![1]));
    let desc = ControlRequest { request_type: 0x81, request: 0x06, value: 0x2200, index: 0, length: 255 };
    match get_request_reply(StreamDeckModel::Mk2, "S", desc) {
        GetReply::Data(d) => {
            assert_eq!(d, StreamDeckModel::Mk2.hid_config().report_descriptor);
            assert_eq!(&d[..4], &[0x05, 0x0C, 0x09, 0x01]);
            assert_eq!(*d.last().unwrap(), 0xC0);
        }
        other => panic!("unexpected reply {:?}", other),
    }
    let vendor = ControlRequest { request_type: 0xC0, request: 0x01, value: 0, index: 0, length: 4 };
    assert!(matches!(get_request_reply(StreamDeckModel::Mk2, "S", vendor), GetReply::Unhandled));
}

#[test]
fn test_set_request_actions() {
    let set_report = ControlRequest { request_type: 0x21, request: 0x09, value: 0x0203, index: 0, length: 32 };
    assert_eq!(set_request_action(set_report), SetAction::ReadReport { report_type: 2, report_id: 3 });
    let set_idle = ControlRequest { request_type: 0x21, request: 0x0A, value: 0, index: 0, length: 0 };
    assert_eq!(set_request_action(set_idle), SetAction::Accept { drain: false });
    let set_proto = ControlRequest { request_type: 0x21, request: 0x0B, value: 1, index: 0, length: 2 };
    assert_eq!(set_request_action(set_proto), SetAction::Accept { drain: true });
    let other = ControlRequest { request_type: 0x40, request: 0x09, value: 0, index: 0, length: 0 };
    assert_eq!(set_request_action(other), SetAction::Unhandled);
}

#[test]
fn test_classify_endpoint_error() {
    assert_eq!(classify_endpoint_error(Some(51), false), EndpointErrorKind::Disconnected);
    assert_eq!(classify_endpoint_error(None, true), EndpointErrorKind::Disconnected);
    assert_eq!(classify_endpoint_error(Some(11), false), EndpointErrorKind::WouldBlock);
    assert_eq!(classify_endpoint_error(Some(5), false), EndpointErrorKind::Other);
    assert_eq!(classify_endpoint_error(None, false), EndpointErrorKind::Other);
}

#[test]
fn test_hid_descriptor_data() {
    assert_eq!(hid_descriptor_data(173), vec![0x11, 0x01, 0x00, 0x01, 0x22, 173, 0]);
    assert_eq!(hid_descriptor_data(0x0123), vec![0x11, 0x01, 0x00, 0x01, 0x22, 0x23, 0x01]);
}

#[test]
fn test_keepalive_due() {
    assert!(keepalive_due(false, 100));
    assert!(!keepalive_due(false, 99));
    assert!(!keepalive_due(true, 1000));
}

#[test]
fn test_collect_plus_reports_order_and_clearing() {
    let mut buttons = ButtonState::new(StreamDeckModel::Plus);
    let mut plus = PlusInputState::new();
    plus.tap(100, 50);
    plus.turn_knob(KnobIndex::C, 2);
    plus.turn_knob(KnobIndex::A, -1);
    plus.press_knob(KnobIndex::B);
    buttons.press(3);

    let reports = collect_plus_reports(&mut buttons, &mut plus);
    assert_eq!(reports.len(), 5);
    assert_eq!(&reports[0][..5], &[0x01, 0x02, 0x0E, 0x00, 0x01]);
    assert_eq!(reports[1][4], 0x01);
    assert_eq!(reports[1][5], 0xFF);
    assert_eq!(reports[2][4], 0x01);
    assert_eq!(reports[2][7], 2);
    assert_eq!(reports[3][4], 0x00);
    assert_eq!(reports[3][6], 1);
    assert_eq!(reports[4][0], 0x01);

    let again = collect_plus_reports(&mut buttons, &mut plus);
    assert!(again.is_empty());
    assert!(plus.is_knob_pressed(KnobIndex::B));
    assert!(buttons.is_pressed(3));
}

#[test]
fn test_handle_output_report() {
    let mut store = ImageStore::new();
    assert_eq!(handle_output_report(&mut store, &[]), OutputOutcome::Empty);
    assert_eq!(handle_output_report(&mut store, &[0x03, 0x02]), OutputOutcome::Other(0x03));

    let mut packet = vec![0x02, 0x07, 4, 1, 3, 0, 0, 0];
    packet.extend_from_slice(&[9, 8, 7]);
    assert_eq!(handle_output_report(&mut store, &packet), OutputOutcome::Image(Ok(Some(4))));
    assert_eq!(store.get_image(4).unwrap().data, vec![9, 8, 7]);

    assert_eq!(
        handle_output_report(&mut store, &[0x02, 0x07, 1]),
        OutputOutcome::Image(Err(ImageError::PacketTooShort { len: 3 }))
    );
    assert_eq!(store.stats().images_completed, 1);
}

#[test]
fn event_loop_steps() {
    assert_eq!(next_event_step(EventPoll::Idle, true), LoopStep::Sleep(50));
    assert_eq!(next_event_step(EventPoll::Failed(EndpointErrorKind::Disconnected), true), LoopStep::Sleep(500));
    assert_eq!(next_event_step(EventPoll::Failed(EndpointErrorKind::Disconnected), false), LoopStep::Stop);
    assert_eq!(next_event_step(EventPoll::Failed(EndpointErrorKind::WouldBlock), true), LoopStep::Fail);
    assert_eq!(next_event_step(EventPoll::Failed(EndpointErrorKind::Other), true), LoopStep::Fail);
    assert_eq!(next_event_step(EventPoll::Unbound, true), LoopStep::Stop);
    assert_eq!(next_event_step(EventPoll::Other, true), LoopStep::Handle);
}
