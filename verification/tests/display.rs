use gadgetdeck::display::bmp::{bmp_decodable_check, decode_bmp};
use gadgetdeck::display::canvas::PixelCanvas;
use gadgetdeck::display::layout::{grid_fits_check, key_positions, layout_fits_check, DeviceLayout, KeyPosition};
use gadgetdeck::display::panel::{button_edges, highlighted, last_pressed, ButtonEdge, DragAction, KnobDrag};
use gadgetdeck::display::pixels::{image_kind, needs_rotation, rotate_180, ImageKind};
use gadgetdeck::display::touch::{apply_gesture, classify_gesture, TouchGesture, TouchTracker};
use gadgetdeck::{PlusInputState, StreamDeckModel, TouchEventType};

fn bmp_2x2(height: i32, bpp: u16) -> Vec<u8> {
    let mut d = vec![0u8; 54];
    d[0] = b'B';
    d[1] = b'M';
    d[10..14].copy_from_slice(&54u32.to_le_bytes());
    d[14..18].copy_from_slice(&40u32.to_le_bytes());
    d[18..22].copy_from_slice(&2i32.to_le_bytes());
    d[22..26].copy_from_slice(&height.to_le_bytes());
    d[26..28].copy_from_slice(&1u16.to_le_bytes());
    d[28..30].copy_from_slice(&bpp.to_le_bytes());
    // stored row 0: two BGR pixels and two bytes of padding
    d.extend_from_slice(&[1, 2, 3, 4, 5, 6, 0, 0]);
    // stored row 1
    d.extend_from_slice(&[7, 8, 9, 10, 11, 12, 0, 0]);
    d
}

#[test]
fn test_image_kind() {
    assert_eq!(image_kind(&[0x42]), ImageKind::TooShort);
    assert_eq!(image_kind(&[0x42, 0x4D, 0]), ImageKind::Bmp);
    assert_eq!(image_kind(&[0xFF, 0xD8, 0xFF]), ImageKind::Jpeg);
    assert_eq!(image_kind(&[0x89, 0x50]), ImageKind::Unknown);
}

#[test]
fn test_needs_rotation() {
    assert!(needs_rotation(StreamDeckModel::Mk2));
    assert!(needs_rotation(StreamDeckModel::Xl));
    assert!(needs_rotation(StreamDeckModel::Neo));
    assert!(!needs_rotation(StreamDeckModel::Plus));
    assert!(!needs_rotation(StreamDeckModel::Mini));
}

#[test]
fn test_rotate_180_and_back() {
    let pixels: Vec<u8> = (0u8..12).collect();
    let once = rotate_180(&pixels, 3);
    assert_eq!(once, vec![8, 9, 10, 11, 4, 5, 6, 7, 0, 1, 2, 3]);
    assert_eq!(rotate_180(&once, 3), pixels);
}

#[test]
fn test_decode_bmp_bottom_up() {
    let img = decode_bmp(&bmp_2x2(2, 24)).unwrap();
    assert_eq!(img.width, 2);
    assert_eq!(img.height, 2);
    assert_eq!(img.rgba, vec![9, 8, 7, 255, 3, 2, 1, 255, 12, 11, 10, 255, 6, 5, 4, 255]);
}

#[test]
fn test_decode_bmp_top_down() {
    let img = decode_bmp(&bmp_2x2(-2, 24)).unwrap();
    assert_eq!(img.height, 2);
    assert_eq!(img.rgba, vec![3, 2, 1, 255, 9, 8, 7, 255, 6, 5, 4, 255, 12, 11, 10, 255]);
}

#[test]
fn test_decode_bmp_refusals_and_missing_pixels() {
    assert!(decode_bmp(&bmp_2x2(2, 32)).is_none());
    assert!(decode_bmp(&[0x42, 0x4D, 0, 0]).is_none());
    let mut short = bmp_2x2(2, 24);
    short.truncate(54 + 8);
    let img = decode_bmp(&short).unwrap();
    // only the bottom stored row is there; it is the second row from the top
    assert_eq!(img.rgba, vec![0, 0, 0, 0, 3, 2, 1, 255, 0, 0, 0, 0, 6, 5, 4, 255]);
}

#[test]
fn test_classify_gesture() {
    assert_eq!(classify_gesture(100, 50, 110, 55, 100), TouchGesture::ShortTap { x: 100, y: 50 });
    assert_eq!(classify_gesture(100, 50, 110, 55, 600), TouchGesture::LongPress { x: 100, y: 50 });
    assert_eq!(
        classify_gesture(100, 50, 150, 50, 50),
        TouchGesture::Drag { start_x: 100, start_y: 50, end_x: 150, end_y: 50 }
    );
    assert_eq!(classify_gesture(10, 90, 10, 40, 50), TouchGesture::Drag { start_x: 10, start_y: 90, end_x: 10, end_y: 40 });
}

#[test]
fn test_touch_tracker() {
    let mut t = TouchTracker::new();
    assert!(!t.is_touching());
    assert_eq!(t.on_touch_end(5, 5, 10), None);
    t.on_touch_start(300, 40);
    assert!(t.is_touching());
    assert_eq!(t.touch_start(), Some((300, 40)));
    assert_eq!(t.on_touch_end(700, 40, 80), Some(TouchGesture::Drag { start_x: 300, start_y: 40, end_x: 700, end_y: 40 }));
    assert!(!t.is_touching());
    t.on_touch_start(1, 1);
    t.on_touch_cancel();
    assert!(!t.is_touching());
}

#[test]
fn test_apply_gesture() {
    let mut plus = PlusInputState::new();
    apply_gesture(&mut plus, TouchGesture::LongPress { x: 900, y: 20 });
    let e = plus.take_touch_event().unwrap();
    assert_eq!(e.event_type, TouchEventType::Long);
    assert_eq!((e.x, e.y), (799, 20));
    apply_gesture(&mut plus, TouchGesture::Drag { start_x: 10, start_y: 20, end_x: 30, end_y: 200 });
    let e = plus.take_touch_event().unwrap();
    assert_eq!(e.event_type, TouchEventType::Drag);
    assert_eq!((e.x, e.y, e.x_end, e.y_end), (10, 20, 30, 99));
}

#[test]
fn test_canvas_place_with_clipping() {
    let mut c = PixelCanvas::new(4, 3);
    assert_eq!(c.pixels().len(), 48);
    let src: Vec<u8> = (1u8..=16).collect();
    // a 2 x 2 image at (3, 2): only its top-left pixel lands on the canvas
    c.place(&src, 2, 2, 3, 2);
    let px = |c: &PixelCanvas, x: usize, y: usize| c.pixels()[(y * 4 + x) * 4..(y * 4 + x) * 4 + 4].to_vec();
    assert_eq!(px(&c, 3, 2), vec![1, 2, 3, 4]);
    assert_eq!(px(&c, 2, 2), vec![0, 0, 0, 0]);
    c.place(&src, 2, 2, 0, 0);
    assert_eq!(px(&c, 0, 0), vec![1, 2, 3, 4]);
    assert_eq!(px(&c, 1, 0), vec![5, 6, 7, 8]);
    assert_eq!(px(&c, 0, 1), vec![9, 10, 11, 12]);
    assert_eq!(px(&c, 1, 1), vec![13, 14, 15, 16]);
    assert_eq!(px(&c, 3, 2), vec![1, 2, 3, 4]);
    let before = c.pixels().to_vec();
    c.place(&src, 2, 2, 0, 0);
    assert_eq!(c.pixels(), &before[..]);
    c.place(&src, 2, 2, 10, 0);
    assert_eq!(c.pixels(), &before[..]);
}

#[test]
fn test_canvas_place_turned() {
    let mut c = PixelCanvas::new(3, 2);
    let src: Vec<u8> = (1u8..=16).collect();
    c.place_turned(&src, 2, 2);
    let p = c.pixels();
    assert_eq!(&p[0..4], &[13, 14, 15, 16]);
    assert_eq!(&p[4..8], &[9, 10, 11, 12]);
    assert_eq!(&p[8..12], &[0, 0, 0, 0]);
    assert_eq!(&p[12..16], &[5, 6, 7, 8]);
    assert_eq!(&p[16..20], &[1, 2, 3, 4]);
}

#[test]
fn test_touchscreen_segments_make_up_the_strip() {
    let mut strip = PixelCanvas::touchscreen();
    assert_eq!((strip.width(), strip.height()), (800, 100));
    for seg in 0..4u8 {
        let src = vec![seg + 1; 200 * 100 * 4];
        strip.place(&src, 200, 100, seg as u16 * 200, 0);
    }
    let p = strip.pixels();
    assert_eq!(p[0], 1);
    assert_eq!(p[(50 * 800 + 250) * 4], 2);
    assert_eq!(p[(99 * 800 + 599) * 4 + 3], 3);
    assert_eq!(p[(10 * 800 + 799) * 4], 4);
    let info = PixelCanvas::info_bar();
    assert_eq!((info.width(), info.height()), (248, 58));
}

#[test]
fn test_layout_mk2() {
    let l = DeviceLayout::from_model(StreamDeckModel::Mk2, 800, 480);
    assert_eq!((l.cols, l.rows, l.button_count), (5, 3, 15));
    assert_eq!(l.button_size, 93);
    assert_eq!(l.button_spacing, 23);
    assert_eq!(l.image_size, 72);
    assert!(!l.has_knobs && !l.has_touchscreen && !l.has_info_bar);
}

#[test]
fn test_layout_plus_and_neo() {
    let l = DeviceLayout::from_model(StreamDeckModel::Plus, 800, 480);
    assert_eq!(l.button_size, 35);
    assert_eq!(l.button_spacing, 20);
    assert!(l.has_knobs && l.has_touchscreen);
    assert_eq!((l.knob_count, l.touchscreen_width, l.touchscreen_height), (4, 800, 100));
    let n = DeviceLayout::from_model(StreamDeckModel::Neo, 1024, 600);
    assert!(n.has_info_bar && n.has_led_buttons);
    assert_eq!((n.info_bar_width, n.info_bar_height, n.led_button_count), (248, 58, 2));
    assert_eq!(n.button_size, 165);
    assert_eq!(n.button_spacing, 41);
}

#[test]
fn test_layout_tiny_screen_rounds_toward_zero() {
    let l = DeviceLayout::from_model(StreamDeckModel::Mini, 50, 50);
    assert_eq!(l.button_size, -60);
    assert_eq!(l.button_spacing, 20);
    let l = DeviceLayout::from_model(StreamDeckModel::Mini, 101, 1000);
    assert_eq!(l.button_size, -19);
}

#[test]
fn test_key_positions() {
    let l = DeviceLayout::from_model(StreamDeckModel::Mk2, 800, 480);
    let keys = key_positions(&l, 800, 480);
    assert_eq!(keys.len(), 15);
    assert_eq!(keys[0], KeyPosition { x: 121, y: 77, index: 0 });
    assert_eq!(keys[6], KeyPosition { x: 237, y: 193, index: 6 });
    assert_eq!(keys[14], KeyPosition { x: 121 + 4 * 116, y: 77 + 2 * 116, index: 14 });
    let p = DeviceLayout::from_model(StreamDeckModel::Plus, 800, 480);
    let keys = key_positions(&p, 800, 480);
    assert_eq!(keys[0].y, 80);
    assert_eq!(keys[5].y, 80 + 55);
}

#[test]
fn test_button_edges_and_last_pressed() {
    let was = [false, true, true, false];
    let now = [true, true, false, false];
    assert_eq!(
        button_edges(&was, &now),
        vec![ButtonEdge { index: 0, pressed: true }, ButtonEdge { index: 2, pressed: false }]
    );
    assert!(button_edges(&now, &now).is_empty());
    assert_eq!(last_pressed(&now), Some(1));
    assert_eq!(last_pressed(&[false, false]), None);
}

#[test]
fn test_knob_drag_state_machine() {
    let mut drag = KnobDrag::new();
    assert_eq!(drag.step(true, None, 4), DragAction::Idle);
    assert_eq!(drag.step(true, Some(2), 4), DragAction::Start(2));
    assert_eq!(drag.dragging(), Some(2));
    assert_eq!(drag.step(true, Some(0), 4), DragAction::Update(2));
    assert_eq!(highlighted(DragAction::Update(2)), Some(2));
    assert_eq!(drag.step(false, None, 4), DragAction::End(2));
    assert_eq!(drag.dragging(), None);
    assert_eq!(drag.step(false, None, 4), DragAction::Idle);
    assert_eq!(highlighted(DragAction::End(2)), None);
}

#[test]
fn test_layout_bounds_on_a_large_screen() {
    let l = DeviceLayout::from_model(StreamDeckModel::Mini, 4000, 3000);
    assert_eq!(l.button_size, 200);
    assert_eq!(l.button_spacing, 50);
    let keys = key_positions(&l, 4000, 3000);
    for pair in keys.windows(2) {
        if pair[0].y == pair[1].y {
            assert_eq!(pair[1].x - pair[0].x, 250);
        }
    }
}

#[test]
fn test_bmp_decodable_check() {
    assert!(bmp_decodable_check(&bmp_2x2(2, 24)));
    assert!(bmp_decodable_check(&bmp_2x2(2, 32)));
    assert!(bmp_decodable_check(&[1, 2, 3]));
    // a 3 x 1 bitmap: its second pixel would land in row 1 of a one-row result
    let mut wide = bmp_2x2(1, 24);
    wide[18..22].copy_from_slice(&3i32.to_le_bytes());
    assert!(!bmp_decodable_check(&wide));
    let mut bad_height = bmp_2x2(1, 24);
    bad_height[22..26].copy_from_slice(&i32::MIN.to_le_bytes());
    assert!(!bmp_decodable_check(&bad_height));
}

#[test]
fn test_layout_and_grid_checks() {
    assert!(layout_fits_check(StreamDeckModel::Xl, 800, 480));
    assert!(!layout_fits_check(StreamDeckModel::Xl, i32::MIN, 480));
    assert!(!layout_fits_check(StreamDeckModel::Plus, 800, i32::MIN + 100));
    let l = DeviceLayout::from_model(StreamDeckModel::Xl, 800, 480);
    assert!(grid_fits_check(&l, 800, 480));
    let mut huge = l;
    huge.button_size = i32::MAX / 2;
    assert!(!grid_fits_check(&huge, 800, 480));
}
