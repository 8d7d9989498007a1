use gadgetdeck::device::image::{ImageCommand, ImageProtocol};
use gadgetdeck::{ImageError, ImageEvent, ImagePacket, ImagePacketHeader, ImageStore};

fn make_mini_test_packet(key_index_1based: u8, page: u8, is_last: bool, payload: &[u8]) -> Vec<u8> {
    let mut data = vec![0u8; 16 + payload.len()];
    data[0] = 0x02;
    data[1] = 0x01;
    data[2] = page;
    data[3] = 0x00;
    data[4] = if is_last { 1 } else { 0 };
    data[5] = key_index_1based;
    data[16..].copy_from_slice(payload);
    data
}

fn make_mk2_test_packet(key_index: u8, chunk_index: u16, is_last: bool, payload: &[u8]) -> Vec<u8> {
    let mut data = vec![0u8; 8 + payload.len()];
    data[0] = 0x02;
    data[1] = 0x07;
    data[2] = key_index;
    data[3] = if is_last { 1 } else { 0 };
    let chunk_size = payload.len() as u16;
    data[4] = (chunk_size & 0xFF) as u8;
    data[5] = ((chunk_size >> 8) & 0xFF) as u8;
    data[6] = (chunk_index & 0xFF) as u8;
    data[7] = ((chunk_index >> 8) & 0xFF) as u8;
    data[8..].copy_from_slice(payload);
    data
}

#[test]
fn test_parse_mini_header() {
    let packet = make_mini_test_packet(3, 0, false, &[]);
    let header = ImagePacketHeader::parse(&packet).unwrap();

    assert_eq!(header.report_id, 0x02);
    assert_eq!(header.command, ImageCommand::WriteImage);
    assert_eq!(header.page_number, 0);
    assert!(!header.is_last);
    assert_eq!(header.key_index, 2);
    assert_eq!(header.protocol, ImageProtocol::Module6);
}

#[test]
fn test_parse_mk2_header() {
    let packet = make_mk2_test_packet(5, 0, true, &[0xFFu8; 100]);
    let header = ImagePacketHeader::parse(&packet).unwrap();

    assert_eq!(header.report_id, 0x02);
    assert_eq!(header.command, ImageCommand::UpdateKeyImage);
    assert_eq!(header.page_number, 0);
    assert!(header.is_last);
    assert_eq!(header.key_index, 5);
    assert_eq!(header.chunk_size, 100);
    assert_eq!(header.protocol, ImageProtocol::Module15_32);
}

#[test]
fn test_single_packet_image_mini() {
    let mut store = ImageStore::new();

    let payload = vec![0xAB; 100];
    let packet = make_mini_test_packet(1, 0, true, &payload);

    let result = store.process_packet(&packet).unwrap();
    assert_eq!(result, Some(0));

    let image = store.get_image(0).unwrap();
    assert_eq!(image.key_index, 0);
    assert_eq!(image.data, payload);
}

#[test]
fn test_single_packet_image_mk2() {
    let mut store = ImageStore::new();

    let payload = vec![0xCD; 100];
    let packet = make_mk2_test_packet(5, 0, true, &payload);

    let result = store.process_packet(&packet).unwrap();
    assert_eq!(result, Some(5));

    let image = store.get_image(5).unwrap();
    assert_eq!(image.key_index, 5);
    assert_eq!(image.data, payload);
}

#[test]
fn test_multi_packet_image_mini() {
    let mut store = ImageStore::new();

    let payload1 = vec![0x11; 1008];
    let packet1 = make_mini_test_packet(2, 0, false, &payload1);
    let result = store.process_packet(&packet1).unwrap();
    assert_eq!(result, None);

    let payload2 = vec![0x22; 1008];
    let packet2 = make_mini_test_packet(2, 1, false, &payload2);
    let result = store.process_packet(&packet2).unwrap();
    assert_eq!(result, None);

    let payload3 = vec![0x33; 500];
    let packet3 = make_mini_test_packet(2, 2, true, &payload3);
    let result = store.process_packet(&packet3).unwrap();
    assert_eq!(result, Some(1));

    let image = store.get_image(1).unwrap();
    assert_eq!(image.key_index, 1);
    assert_eq!(image.len(), 1008 + 1008 + 500);
}

#[test]
fn test_multi_packet_image_mk2() {
    let mut store = ImageStore::new();

    let payload1 = vec![0x11; 500];
    let packet1 = make_mk2_test_packet(3, 0, false, &payload1);
    let result = store.process_packet(&packet1).unwrap();
    assert_eq!(result, None);

    let payload2 = vec![0x22; 300];
    let packet2 = make_mk2_test_packet(3, 1, true, &payload2);
    let result = store.process_packet(&packet2).unwrap();
    assert_eq!(result, Some(3));

    let image = store.get_image(3).unwrap();
    assert_eq!(image.key_index, 3);
    assert_eq!(image.len(), 500 + 300);
}

#[test]
fn test_page_sequence_error() {
    let mut store = ImageStore::new();

    let packet1 = make_mini_test_packet(1, 0, false, &[0x11; 100]);
    store.process_packet(&packet1).unwrap();

    let packet2 = make_mini_test_packet(1, 2, false, &[0x22; 100]);
    let result = store.process_packet(&packet2);

    assert!(matches!(result, Err(ImageError::PageSequenceError { .. })));
}

#[test]
fn test_stats() {
    let mut store = ImageStore::new();

    let packet = make_mini_test_packet(1, 0, true, &[0xAB; 100]);
    store.process_packet(&packet).unwrap();

    let stats = store.stats();
    assert_eq!(stats.packets_received, 1);
    assert_eq!(stats.images_completed, 1);
    assert_eq!(stats.bytes_received, 116);
    assert_eq!(stats.errors, 0);
}

#[test]
fn rejected_reports() {
    let mut store = ImageStore::new();
    assert_eq!(store.process_packet(&[0x02, 0x07, 0, 1]), Err(ImageError::PacketTooShort { len: 4 }));
    let mut packet = make_mk2_test_packet(0, 0, true, &[1, 2, 3]);
    packet[0] = 0x03;
    assert_eq!(store.process_packet(&packet), Err(ImageError::InvalidReportId { expected: 0x02, got: 0x03 }));
    let mut unknown = make_mk2_test_packet(0, 0, true, &[1, 2, 3]);
    unknown[1] = 0x09;
    assert_eq!(store.process_packet(&unknown), Err(ImageError::PacketTooShort { len: 11 }));
    let short_mini = [0x02u8, 0x01, 0, 0, 1, 1, 0, 0, 0, 0];
    assert_eq!(store.process_packet(&short_mini), Err(ImageError::PacketTooShort { len: 10 }));
    let stats = store.stats();
    assert_eq!(stats.packets_received, 0);
    assert_eq!(stats.errors, 0);
}

#[test]
fn sequence_error_restarts_the_key() {
    let mut store = ImageStore::new();
    store.process_packet(&make_mk2_test_packet(4, 0, false, &[1, 2])).unwrap();
    assert_eq!(
        store.process_packet(&make_mk2_test_packet(4, 5, true, &[3])),
        Err(ImageError::PageSequenceError { expected: 1, got: 5 })
    );
    assert_eq!(store.stats().errors, 1);
    // after the error the key expects page 0 again
    assert_eq!(
        store.process_packet(&make_mk2_test_packet(4, 1, true, &[3])),
        Err(ImageError::PageSequenceError { expected: 0, got: 1 })
    );
    assert_eq!(store.process_packet(&make_mk2_test_packet(4, 0, true, &[9, 9])), Ok(Some(4)));
    assert_eq!(store.get_image(4).unwrap().as_bytes(), &[9, 9]);
}

#[test]
fn mk2_payload_stops_at_chunk_size() {
    let mut packet = make_mk2_test_packet(1, 0, true, &[5, 6, 7, 8]);
    packet[4] = 2;
    let parsed = ImagePacket::parse(&packet).unwrap();
    assert_eq!(parsed.payload, vec![5, 6]);
    packet[4] = 200;
    let parsed = ImagePacket::parse(&packet).unwrap();
    assert_eq!(parsed.payload, vec![5, 6, 7, 8]);
}

#[test]
fn mini_key_zero_saturates_and_chunk_size_counts_payload() {
    let packet = make_mini_test_packet(0, 7, true, &[1, 2, 3]);
    let header = ImagePacketHeader::parse(&packet).unwrap();
    assert_eq!(header.key_index, 0);
    assert_eq!(header.page_number, 7);
    assert_eq!(header.chunk_size, 3);
    assert_eq!(header.header_size, ImagePacketHeader::SIZE_MINI);
    assert_eq!(ImageCommand::from(0x08), ImageCommand::UpdateFullScreen);
    assert_eq!(ImageCommand::from(0x42).as_u8(), 0x42);
    assert_eq!(ImageCommand::UpdateKeyImage.as_u8(), 0x07);
}

#[test]
fn subscribers_receive_completed_images() {
    let mut store = ImageStore::new();
    let rx = store.subscribe();
    store.process_packet(&make_mk2_test_packet(2, 0, true, &[4, 5, 6])).unwrap();
    match rx.try_recv() {
        Ok(ImageEvent::Updated { key_index, image }) => {
            assert_eq!(key_index, 2);
            assert_eq!(image.data, vec![4, 5, 6]);
        }
        Err(e) => panic!("no event: {:?}", e),
    }
    assert!(rx.try_recv().is_err());
    drop(rx);
    store.process_packet(&make_mk2_test_packet(2, 0, true, &[7])).unwrap();
}

#[test]
fn clear_and_get_all() {
    let mut store = ImageStore::default();
    store.process_packet(&make_mk2_test_packet(1, 0, true, &[1])).unwrap();
    store.process_packet(&make_mk2_test_packet(2, 0, true, &[2, 2])).unwrap();
    let all = store.get_all_images();
    assert_eq!(all.len(), 2);
    assert_eq!(all[&2].data, vec![2, 2]);
    store.clear();
    assert!(store.get_image(1).is_none());
    assert_eq!(store.stats().images_completed, 2);
    let image = all[&1].clone();
    assert_eq!(image.len(), 1);
    assert!(!image.is_empty());
}

#[test]
fn rejected_and_partial_packets_send_no_event() {
    let mut store = ImageStore::new();
    let rx = store.subscribe();
    assert!(store.process_packet(&[0x02, 0x07]).is_err());
    assert!(store.process_packet(&[0x03, 0x07, 0, 1, 0, 0, 0, 0]).is_err());
    assert_eq!(store.process_packet(&make_mk2_test_packet(1, 0, false, &[1])), Ok(None));
    assert!(store.process_packet(&make_mk2_test_packet(1, 3, true, &[1])).is_err());
    assert!(rx.try_recv().is_err());
}

#[test]
fn every_subscriber_receives_each_image_in_order() {
    let mut store = ImageStore::new();
    let first = store.subscribe();
    store.process_packet(&make_mk2_test_packet(0, 0, true, &[1])).unwrap();
    let second = store.subscribe();
    store.process_packet(&make_mk2_test_packet(3, 0, true, &[2])).unwrap();
    store.process_packet(&make_mk2_test_packet(5, 0, true, &[3, 3])).unwrap();
    let keys = |rx: &gadgetdeck::ImageEventReceiver| {
        let mut v = Vec::new();
        while let Ok(ImageEvent::Updated { key_index, image }) = rx.try_recv() {
            assert_eq!(image.key_index, key_index);
            v.push((key_index, image.data));
        }
        v
    };
    assert_eq!(keys(&first), vec![(0, vec![1]), (3, vec![2]), (5, vec![3, 3])]);
    assert_eq!(keys(&second), vec![(3, vec![2]), (5, vec![3, 3])]);
}

#[test]
fn packet_after_completed_image_is_not_an_image() {
    let mut store = ImageStore::new();
    assert_eq!(store.process_packet(&make_mk2_test_packet(6, 0, true, &[1, 2])), Ok(Some(6)));
    assert_eq!(store.process_packet(&make_mk2_test_packet(6, 1, false, &[3])), Ok(None));
    assert_eq!(store.get_image(6).unwrap().data, vec![1, 2]);
    assert_eq!(store.stats().images_completed, 1);
}

#[test]
fn interleaved_keys_reassemble_separately() {
    let mut store = ImageStore::new();
    assert_eq!(store.process_packet(&make_mk2_test_packet(1, 0, false, &[10, 11])), Ok(None));
    assert_eq!(store.process_packet(&make_mk2_test_packet(2, 0, false, &[20])), Ok(None));
    assert!(store.process_packet(&[0x01, 0, 0, 0, 0, 0, 0, 0]).is_err());
    assert_eq!(store.process_packet(&make_mk2_test_packet(1, 1, false, &[12])), Ok(None));
    assert_eq!(store.process_packet(&make_mk2_test_packet(2, 1, true, &[21, 22])), Ok(Some(2)));
    assert_eq!(store.process_packet(&make_mk2_test_packet(1, 2, true, &[13])), Ok(Some(1)));
    assert_eq!(store.get_image(1).unwrap().data, vec![10, 11, 12, 13]);
    assert_eq!(store.get_image(2).unwrap().data, vec![20, 21, 22]);
}

#[test]
fn dropped_receiver_does_not_stop_the_others() {
    let mut store = ImageStore::new();
    let gone = store.subscribe();
    let kept = store.subscribe();
    drop(gone);
    store.process_packet(&make_mk2_test_packet(7, 0, true, &[1, 2, 3])).unwrap();
    store.process_packet(&make_mk2_test_packet(8, 0, true, &[4])).unwrap();
    let mut keys = Vec::new();
    while let Ok(ImageEvent::Updated { key_index, .. }) = kept.try_recv() {
        keys.push(key_index);
    }
    assert_eq!(keys, vec![7, 8]);
}
