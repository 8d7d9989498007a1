//! WebSocket messages, REST responses and request checks of the web front end.

use vstd::prelude::*;
use crate::device::buttons::{is_pressed_view, ButtonState, MAX_BUTTONS};
use crate::device::image::{ButtonImage, ImageStore, ImageStats};
use crate::server::encoding::{base64_fits, base64_len, base64_standard, encode_base64};
use crate::usb::StreamDeckModel;

verus! {

/// Pressed state of one button, as sent over the WebSocket.
#[derive(Debug, Clone, Copy)]
pub struct ButtonStateInfo {
    pub id: u8,
    pub pressed: bool,
}

/// A knob, as listed by the knob API.
#[derive(Debug)]
pub struct KnobInfo {
    pub id: u8,
    pub name: String,
}

/// Swipe request body.
#[derive(Debug, Clone, Copy)]
pub struct SwipeRequest {
    pub start_x: u16,
    pub start_y: u16,
    pub end_x: u16,
    pub end_y: u16,
}

/// Tap request body.
#[derive(Debug, Clone, Copy)]
pub struct TapRequest {
    pub x: u16,
    pub y: u16,
}

/// Turn-knob request body: positive steps turn clockwise.
#[derive(Debug, Clone, Copy)]
pub struct TurnKnobRequest {
    pub steps: i8,
}

/// An LCD segment kept for replay to new WebSocket clients.
#[derive(Debug)]
pub struct LcdSegment {
    pub x_offset: u16,
    pub y_offset: u16,
    pub width: u16,
    pub height: u16,
    pub image_data: Vec<u8>,
}

/// Message sent over the WebSocket.
#[derive(Debug)]
pub enum WsMessage {
    /// A key image, base64-encoded.
    ImageUpdate { button_id: u8, image_data: String },
    /// The pressed state of every button.
    ButtonsUpdate { buttons: Vec<ButtonStateInfo> },
    /// An LCD segment, base64-encoded.
    LcdUpdate { x_offset: u16, y_offset: u16, width: u16, height: u16, image_data: String },
}

/// Status response.
#[derive(Debug)]
pub struct StatusResponse {
    pub model: String,
    pub num_buttons: u8,
    pub running: bool,
}

/// Button of the buttons response.
#[derive(Debug, Clone, Copy)]
pub struct ButtonInfo {
    pub id: u8,
    pub pressed: bool,
}

/// Buttons response.
#[derive(Debug)]
pub struct ButtonsResponse {
    pub buttons: Vec<ButtonInfo>,
}

/// Image statistics response.
#[derive(Debug)]
pub struct ImagesResponse {
    pub packets_received: u64,
    pub images_completed: u64,
    pub bytes_received: u64,
    pub available_images: Vec<u8>,
}

/// Knobs response.
#[derive(Debug)]
pub struct KnobsResponse {
    pub available: bool,
    pub knobs: Vec<KnobInfo>,
}

/// Abstract view of a WebSocket message: the text fields by their characters.
pub enum WsMessageView {
    ImageUpdate { button_id: u8, image_data: Seq<char> },
    ButtonsUpdate { buttons: Seq<(u8, bool)> },
    LcdUpdate { x_offset: u16, y_offset: u16, width: u16, height: u16, image_data: Seq<char> },
}

impl WsMessage {
    /// Abstract view of the message.
    pub open spec fn view_message(&self) -> WsMessageView {
        match self {
            WsMessage::ImageUpdate { button_id, image_data } => WsMessageView::ImageUpdate {
                button_id: *button_id,
                image_data: image_data@,
            },
            WsMessage::ButtonsUpdate { buttons } => WsMessageView::ButtonsUpdate {
                buttons: buttons@.map_values(|b: ButtonStateInfo| (b.id, b.pressed)),
            },
            WsMessage::LcdUpdate { x_offset, y_offset, width, height, image_data } => WsMessageView::LcdUpdate {
                x_offset: *x_offset,
                y_offset: *y_offset,
                width: *width,
                height: *height,
                image_data: image_data@,
            },
        }
    }
}

/// The (id, pressed) pairs of the first `n` buttons of a state.
pub open spec fn button_pairs(state: crate::device::buttons::ButtonStateView, n: nat) -> Seq<(u8, bool)> {
    Seq::new(n, |i: int| (i as u8, is_pressed_view(state, i as u8)))
}

/// The pressed state of every button of the device, in id order.
pub fn button_state_infos(state: &ButtonState) -> (r: Vec<ButtonStateInfo>)
    ensures
        r@.len() == state@.num_buttons,
        forall|j: int| 0 <= j < r@.len() ==> (#[trigger] r@[j]).id == j && r@[j].pressed == is_pressed_view(state@, j as u8),
{
    let n = state.num_buttons();
    let mut out: Vec<ButtonStateInfo> = Vec::new();
    let mut i: u8 = 0;
    while i < n
        invariant
            n == state@.num_buttons,
            i <= n,
            out@.len() == i,
            forall|j: int| 0 <= j < i ==> (#[trigger] out@[j]).id == j && out@[j].pressed == is_pressed_view(state@, j as u8),
        decreases n - i,
    {
        out.push(ButtonStateInfo { id: i, pressed: state.is_pressed(i) });
        i = i + 1;
    }
    out
}

/// The buttons response: every button of the device with its pressed state.
pub fn buttons_response(state: &ButtonState) -> (r: ButtonsResponse)
    ensures
        r.buttons@.len() == state@.num_buttons,
        forall|j: int| 0 <= j < r.buttons@.len() ==> (#[trigger] r.buttons@[j]).id == j && r.buttons@[j].pressed == is_pressed_view(state@, j as u8),
{
    let n = state.num_buttons();
    let mut out: Vec<ButtonInfo> = Vec::new();
    let mut i: u8 = 0;
    while i < n
        invariant
            n == state@.num_buttons,
            i <= n,
            out@.len() == i,
            forall|j: int| 0 <= j < i ==> (#[trigger] out@[j]).id == j && out@[j].pressed == is_pressed_view(state@, j as u8),
        decreases n - i,
    {
        out.push(ButtonInfo { id: i, pressed: state.is_pressed(i) });
        i = i + 1;
    }
    ButtonsResponse { buttons: out }
}

/// The status response: the model's product name, its number of buttons and
/// whether the gadget runs.
pub fn status_response(model: StreamDeckModel, num_buttons: u8, running: bool) -> (r: StatusResponse)
    ensures
        r.model@ == model.product_name_spec(),
        r.num_buttons == num_buttons,
        r.running == running,
{
    StatusResponse { model: model.product_name().to_owned(), num_buttons, running }
}

/// The keys below `n` that have a completed image, in id order.
pub open spec fn keys_with_images(images: Map<u8, crate::device::image::ImageView>, n: nat) -> Seq<u8>
    decreases n,
{
    if n == 0 {
        Seq::empty()
    } else {
        let earlier = keys_with_images(images, (n - 1) as nat);
        if images.contains_key((n - 1) as u8) { earlier.push((n - 1) as u8) } else { earlier }
    }
}

/// The image response: reception statistics and the keys below `num_buttons`
/// that have a completed image.
pub fn images_response(store: &ImageStore, num_buttons: u8) -> (r: ImagesResponse)
    ensures
        r.packets_received == store@.stats.packets_received,
        r.images_completed == store@.stats.images_completed,
        r.bytes_received == store@.stats.bytes_received,
        r.available_images@ == keys_with_images(store@.images, num_buttons as nat),
{
    let stats: ImageStats = store.stats();
    let mut available: Vec<u8> = Vec::new();
    let mut i: u8 = 0;
    while i < num_buttons
        invariant
            i <= num_buttons,
            available@ == keys_with_images(store@.images, i as nat),
        decreases num_buttons - i,
    {
        if store.get_image(i).is_some() {
            available.push(i);
        }
        i = i + 1;
    }
    ImagesResponse {
        packets_received: stats.packets_received,
        images_completed: stats.images_completed,
        bytes_received: stats.bytes_received,
        available_images: available,
    }
}

/// The knobs response: knobs A-D (ids 0-3) on a Stream Deck +, none otherwise.
pub fn knobs_response(available: bool) -> (r: KnobsResponse)
    ensures
        r.available == available,
        !available ==> r.knobs@.len() == 0,
        available ==> r.knobs@.len() == 4 && (forall|i: int| 0 <= i < 4 ==> (#[trigger] r.knobs@[i]).id == i)
            && r.knobs@[0].name@ == "A"@ && r.knobs@[1].name@ == "B"@ && r.knobs@[2].name@ == "C"@
            && r.knobs@[3].name@ == "D"@,
{
    let mut knobs: Vec<KnobInfo> = Vec::new();
    if available {
        knobs.push(KnobInfo { id: 0, name: "A".to_owned() });
        knobs.push(KnobInfo { id: 1, name: "B".to_owned() });
        knobs.push(KnobInfo { id: 2, name: "C".to_owned() });
        knobs.push(KnobInfo { id: 3, name: "D".to_owned() });
    }
    KnobsResponse { available, knobs }
}

/// Content type of the key images of a model.
pub fn image_content_type(model: StreamDeckModel) -> (r: &'static str)
    ensures
        r@ == (if model.image_format_spec() == "JPEG"@ { "image/jpeg"@ } else { "image/bmp"@ }),
{
    match model {
        StreamDeckModel::Mini | StreamDeckModel::Pedal => {
            proof {
                reveal_strlit("JPEG");
                reveal_strlit("BMP");
                reveal_strlit("NONE");
                assert("BMP"@.len() != "JPEG"@.len());
                assert("NONE"@[0] != "JPEG"@[0]);
            }
            "image/bmp"
        },
        _ => "image/jpeg",
    }
}

/// The message that announces a key image.
pub fn image_update_message(key_index: u8, image: &ButtonImage) -> (r: WsMessage)
    requires
        base64_len(image.data@.len()) <= usize::MAX,
    ensures
        r.view_message() == (WsMessageView::ImageUpdate { button_id: key_index, image_data: base64_standard(image.data@) }),
{
    WsMessage::ImageUpdate { button_id: key_index, image_data: encode_base64(image.as_bytes()) }
}

/// The message that announces an LCD segment.
pub fn lcd_update_message(segment: &LcdSegment) -> (r: WsMessage)
    requires
        base64_len(segment.image_data@.len()) <= usize::MAX,
    ensures
        r.view_message() == (WsMessageView::LcdUpdate {
            x_offset: segment.x_offset,
            y_offset: segment.y_offset,
            width: segment.width,
            height: segment.height,
            image_data: base64_standard(segment.image_data@),
        }),
{
    WsMessage::LcdUpdate {
        x_offset: segment.x_offset,
        y_offset: segment.y_offset,
        width: segment.width,
        height: segment.height,
        image_data: encode_base64(segment.image_data.as_slice()),
    }
}

/// The message that announces the state of every button.
pub fn buttons_update_message(state: &ButtonState) -> (r: WsMessage)
    ensures
        r.view_message() == (WsMessageView::ButtonsUpdate { buttons: button_pairs(state@, state@.num_buttons as nat) }),
{
    let buttons = button_state_infos(state);
    assert(buttons@.map_values(|b: ButtonStateInfo| (b.id, b.pressed)) =~= button_pairs(state@, state@.num_buttons as nat));
    WsMessage::ButtonsUpdate { buttons }
}

/// Abstract LCD segment.
pub struct LcdSegmentView {
    pub x_offset: u16,
    pub y_offset: u16,
    pub width: u16,
    pub height: u16,
    pub image_data: Seq<u8>,
}

impl LcdSegment {
    /// Abstract view of the segment.
    pub open spec fn view_segment(&self) -> LcdSegmentView {
        LcdSegmentView {
            x_offset: self.x_offset,
            y_offset: self.y_offset,
            width: self.width,
            height: self.height,
            image_data: self.image_data@,
        }
    }

    /// A copy of the segment.
    pub fn duplicate(&self) -> (r: LcdSegment)
        ensures
            r.view_segment() == self.view_segment(),
    {
        LcdSegment {
            x_offset: self.x_offset,
            y_offset: self.y_offset,
            width: self.width,
            height: self.height,
            image_data: vstd::slice::slice_to_vec(self.image_data.as_slice()),
        }
    }
}

/// Index of the first segment at (x, y) among the first `n` segments.
pub open spec fn find_position(segs: Seq<LcdSegmentView>, x: u16, y: u16, n: nat) -> Option<int>
    decreases n,
{
    if n == 0 {
        None
    } else {
        match find_position(segs, x, y, (n - 1) as nat) {
            Some(i) => Some(i),
            None => if segs[n - 1].x_offset == x && segs[n - 1].y_offset == y {
                Some(n - 1)
            } else {
                None
            },
        }
    }
}

/// The segments after storing one at (x, y): the first segment already at
/// that position takes the new size and data, otherwise the new one is
/// appended.
pub open spec fn lcd_update_spec(segs: Seq<LcdSegmentView>, x: u16, y: u16, w: u16, h: u16, data: Seq<u8>) -> Seq<LcdSegmentView> {
    let new_seg = LcdSegmentView { x_offset: x, y_offset: y, width: w, height: h, image_data: data };
    match find_position(segs, x, y, segs.len()) {
        Some(i) => segs.update(i, new_seg),
        None => segs.push(new_seg),
    }
}

/// A first match among `n` segments stays the first match among more.
proof fn lemma_find_position_extends(segs: Seq<LcdSegmentView>, x: u16, y: u16, n: nat, m: nat)
    requires
        n <= m,
        find_position(segs, x, y, n) is Some,
    ensures
        find_position(segs, x, y, m) == find_position(segs, x, y, n),
    decreases m - n,
{
    if n < m {
        lemma_find_position_extends(segs, x, y, n, (m - 1) as nat);
    }
}

/// A found index is in range and at the position.
proof fn lemma_find_position_found(segs: Seq<LcdSegmentView>, x: u16, y: u16, n: nat)
    requires
        n <= segs.len(),
    ensures
        find_position(segs, x, y, n) matches Some(i) ==> 0 <= i < n && segs[i].x_offset == x && segs[i].y_offset == y,
    decreases n,
{
    if n > 0 {
        lemma_find_position_found(segs, x, y, (n - 1) as nat);
    }
}

/// The search sees only the positions of the first `n` segments.
proof fn lemma_find_position_same_positions(a: Seq<LcdSegmentView>, b: Seq<LcdSegmentView>, x: u16, y: u16, n: nat)
    requires
        n <= a.len(),
        n <= b.len(),
        forall|j: int| 0 <= j < n ==> a[j].x_offset == b[j].x_offset && a[j].y_offset == b[j].y_offset,
    ensures
        find_position(a, x, y, n) == find_position(b, x, y, n),
    decreases n,
{
    if n > 0 {
        lemma_find_position_same_positions(a, b, x, y, (n - 1) as nat);
    }
}

/// The most recent LCD segment of each position.
#[derive(Debug)]
pub struct LcdStore {
    segments: Vec<LcdSegment>,
}

impl View for LcdStore {
    type V = Seq<LcdSegmentView>;

    closed spec fn view(&self) -> Seq<LcdSegmentView> {
        self.segments@.map_values(|s: LcdSegment| s.view_segment())
    }
}

impl LcdStore {
    /// An empty store.
    pub fn new() -> (r: Self)
        ensures
            r@ == Seq::<LcdSegmentView>::empty(),
    {
        let r = LcdStore { segments: Vec::new() };
        assert(r@ =~= Seq::<LcdSegmentView>::empty());
        r
    }

    /// Stores a segment: the first segment at the same position is replaced
    /// in place, or the segment is appended.
    pub fn update(&mut self, x_offset: u16, y_offset: u16, width: u16, height: u16, image_data: Vec<u8>)
        ensures
            final(self)@ == lcd_update_spec(old(self)@, x_offset, y_offset, width, height, image_data@),
    {
        let ghost segs = self@;
        let ghost data = image_data@;
        let mut i: usize = 0;
        while i < self.segments.len()
            invariant
                self@ == segs,
                segs == old(self)@,
                i <= segs.len(),
                self.segments@.len() == segs.len(),
                find_position(segs, x_offset, y_offset, i as nat) is None,
                image_data@ == data,
            decreases self.segments@.len() - i,
        {
            proof {
                assert(self@[i as int] == self.segments@[i as int].view_segment());
            }
            if self.segments[i].x_offset == x_offset && self.segments[i].y_offset == y_offset {
                let seg = LcdSegment { x_offset, y_offset, width, height, image_data };
                let ghost before = self.segments@;
                assert(segs == before.map_values(|s: LcdSegment| s.view_segment()));
                self.segments.set(i, seg);
                proof {
                    let new_seg = LcdSegmentView { x_offset, y_offset, width, height, image_data: data };
                    assert(self.segments@ == before.update(i as int, seg));
                    assert(find_position(segs, x_offset, y_offset, (i + 1) as nat) == Some(i as int));
                    lemma_find_position_extends(segs, x_offset, y_offset, (i + 1) as nat, segs.len());
                    assert(seg.view_segment() == new_seg);
                    assert forall|j: int| 0 <= j < segs.len() implies #[trigger] self@[j] == segs.update(i as int, new_seg)[j] by {
                        if j != i as int {
                            assert(self.segments@[j] == before[j]);
                        }
                    }
                    assert(self@ =~= segs.update(i as int, new_seg));
                }
                return;
            }
            i = i + 1;
        }
        self.segments.push(LcdSegment { x_offset, y_offset, width, height, image_data });
        assert(self@ =~= lcd_update_spec(segs, x_offset, y_offset, width, height, data));
    }

    /// Copies of all stored segments, in storage order.
    pub fn get_all(&self) -> (r: Vec<LcdSegment>)
        ensures
            r@.map_values(|s: LcdSegment| s.view_segment()) == self@,
    {
        let mut out: Vec<LcdSegment> = Vec::new();
        let mut i: usize = 0;
        while i < self.segments.len()
            invariant
                i <= self.segments@.len(),
                out@.len() == i,
                forall|j: int| 0 <= j < i ==> (#[trigger] out@[j]).view_segment() == self.segments@[j].view_segment(),
            decreases self.segments@.len() - i,
        {
            out.push(self.segments[i].duplicate());
            i = i + 1;
        }
        assert(out@.map_values(|s: LcdSegment| s.view_segment()) =~= self@);
        out
    }
}

/// Whether no two segments share a position.
pub open spec fn positions_distinct(segs: Seq<LcdSegmentView>) -> bool {
    forall|i: int, j: int|
        0 <= i < j < segs.len() ==> !(#[trigger] segs[i].x_offset == #[trigger] segs[j].x_offset && segs[i].y_offset
            == segs[j].y_offset)
}

/// When the search finds nothing, no segment among the first `n` is at the position.
proof fn lemma_find_position_none(segs: Seq<LcdSegmentView>, x: u16, y: u16, n: nat)
    requires
        n <= segs.len(),
        find_position(segs, x, y, n) is None,
    ensures
        forall|i: int| 0 <= i < n ==> !(#[trigger] segs[i].x_offset == x && segs[i].y_offset == y),
    decreases n,
{
    if n > 0 {
        lemma_find_position_none(segs, x, y, (n - 1) as nat);
    }
}

/// The store keeps at most one segment per position: storing a segment into
/// segments with distinct positions leaves their positions distinct.
pub proof fn law_lcd_positions_stay_distinct(segs: Seq<LcdSegmentView>, x: u16, y: u16, w: u16, h: u16, d: Seq<u8>)
    requires
        positions_distinct(segs),
    ensures
        positions_distinct(lcd_update_spec(segs, x, y, w, h, d)),
{
    let s1 = lcd_update_spec(segs, x, y, w, h, d);
    lemma_find_position_found(segs, x, y, segs.len());
    match find_position(segs, x, y, segs.len()) {
        Some(k) => {
            assert forall|i: int, j: int| 0 <= i < j < s1.len() implies !(#[trigger] s1[i].x_offset
                == #[trigger] s1[j].x_offset && s1[i].y_offset == s1[j].y_offset) by {
                assert(segs[i].x_offset == s1[i].x_offset && segs[i].y_offset == s1[i].y_offset);
                assert(segs[j].x_offset == s1[j].x_offset && segs[j].y_offset == s1[j].y_offset);
            }
        },
        None => {
            lemma_find_position_none(segs, x, y, segs.len());
            assert forall|i: int, j: int| 0 <= i < j < s1.len() implies !(#[trigger] s1[i].x_offset
                == #[trigger] s1[j].x_offset && s1[i].y_offset == s1[j].y_offset) by {
                if j == segs.len() {
                    assert(!(segs[i].x_offset == x && segs[i].y_offset == y));
                } else {
                    assert(segs[i] == s1[i] && segs[j] == s1[j]);
                }
            }
        },
    }
}

/// Storing a segment twice at the same position is the same as storing only
/// the later one: the earlier size and data are gone and no segment is added.
pub proof fn law_lcd_update_replaces(
    segs: Seq<LcdSegmentView>,
    x: u16,
    y: u16,
    w1: u16,
    h1: u16,
    d1: Seq<u8>,
    w2: u16,
    h2: u16,
    d2: Seq<u8>,
)
    ensures
        lcd_update_spec(lcd_update_spec(segs, x, y, w1, h1, d1), x, y, w2, h2, d2)
            == lcd_update_spec(segs, x, y, w2, h2, d2),
{
    let n1 = LcdSegmentView { x_offset: x, y_offset: y, width: w1, height: h1, image_data: d1 };
    let n2 = LcdSegmentView { x_offset: x, y_offset: y, width: w2, height: h2, image_data: d2 };
    let s1 = lcd_update_spec(segs, x, y, w1, h1, d1);
    lemma_find_position_found(segs, x, y, segs.len());
    match find_position(segs, x, y, segs.len()) {
        Some(i) => {
            assert(s1 == segs.update(i, n1));
            lemma_find_position_same_positions(segs, s1, x, y, segs.len());
            assert(s1.update(i, n2) =~= segs.update(i, n2));
        },
        None => {
            assert(s1 == segs.push(n1));
            lemma_find_position_same_positions(segs, s1, x, y, segs.len());
            assert(find_position(s1, x, y, s1.len()) == Some(segs.len() as int));
            assert(s1.update(segs.len() as int, n2) =~= segs.push(n2));
        },
    }
}

/// The image messages for the keys below `n` that have a completed image, in
/// key order.
pub open spec fn image_messages(images: Map<u8, crate::device::image::ImageView>, n: nat) -> Seq<WsMessageView>
    decreases n,
{
    if n == 0 {
        Seq::empty()
    } else {
        let earlier = image_messages(images, (n - 1) as nat);
        let k = (n - 1) as u8;
        if images.contains_key(k) {
            earlier.push(WsMessageView::ImageUpdate { button_id: k, image_data: base64_standard(images[k].data) })
        } else {
            earlier
        }
    }
}

/// The message of a stored LCD segment.
pub open spec fn lcd_message(s: LcdSegmentView) -> WsMessageView {
    WsMessageView::LcdUpdate {
        x_offset: s.x_offset,
        y_offset: s.y_offset,
        width: s.width,
        height: s.height,
        image_data: base64_standard(s.image_data),
    }
}

/// Whether every stored image and segment has a base64 text whose length fits in usize.
pub open spec fn encodable(images: Map<u8, crate::device::image::ImageView>, segs: Seq<LcdSegmentView>) -> bool {
    &&& forall|k: u8| images.contains_key(k) ==> base64_len(#[trigger] images[k].data.len()) <= usize::MAX
    &&& forall|i: int| 0 <= i < segs.len() ==> base64_len(#[trigger] segs[i].image_data.len()) <= usize::MAX
}

/// Views of a list of messages.
pub open spec fn message_views(v: Seq<WsMessage>) -> Seq<WsMessageView> {
    v.map_values(|m: WsMessage| m.view_message())
}

/// Whether every stored image and LCD segment can be sent as base64 text.
pub fn snapshot_encodable(store: &ImageStore, lcd: &LcdStore) -> (r: bool)
    ensures
        r == encodable(store@.images, lcd@),
{
    let mut k: u16 = 0;
    while k < 256
        invariant
            k <= 256,
            forall|j: u8| j < k && store@.images.contains_key(j) ==> base64_len(#[trigger] store@.images[j].data.len())
                <= usize::MAX,
        decreases 256 - k,
    {
        match store.get_image(k as u8) {
            Some(image) => {
                if !base64_fits(image.len()) {
                    assert(store@.images.contains_key(k as u8));
                    assert(!(base64_len(store@.images[k as u8].data.len()) <= usize::MAX));
                    return false;
                }
            },
            None => {},
        }
        k = k + 1;
    }
    let segments = lcd.get_all();
    let mut i: usize = 0;
    while i < segments.len()
        invariant
            i <= segments@.len(),
            segments@.map_values(|s: LcdSegment| s.view_segment()) == lcd@,
            forall|j: u8| store@.images.contains_key(j) ==> base64_len(#[trigger] store@.images[j].data.len()) <= usize::MAX,
            forall|j: int| 0 <= j < i ==> base64_len(#[trigger] lcd@[j].image_data.len()) <= usize::MAX,
        decreases segments@.len() - i,
    {
        assert(segments@[i as int].view_segment() == lcd@[i as int]);
        if !base64_fits(segments[i].image_data.len()) {
            assert(!(base64_len(lcd@[i as int].image_data.len()) <= usize::MAX));
            return false;
        }
        i = i + 1;
    }
    true
}

/// The messages a new WebSocket client gets first: the state of every
/// button, then the image of each key that has one (in key order), then every
/// stored LCD segment (in storage order).
pub fn connect_messages(buttons: &ButtonState, store: &ImageStore, lcd: &LcdStore) -> (r: Vec<WsMessage>)
    requires
        encodable(store@.images, lcd@),
    ensures
        message_views(r@) == seq![WsMessageView::ButtonsUpdate { buttons: button_pairs(buttons@, buttons@.num_buttons as nat) }]
            + image_messages(store@.images, buttons@.num_buttons as nat) + lcd@.map_values(|s: LcdSegmentView| lcd_message(s)),
{
    let mut out: Vec<WsMessage> = Vec::new();
    out.push(buttons_update_message(buttons));
    let ghost first = message_views(out@);
    assert(first =~= seq![WsMessageView::ButtonsUpdate { buttons: button_pairs(buttons@, buttons@.num_buttons as nat) }]);
    let n = buttons.num_buttons();
    let mut i: u8 = 0;
    while i < n
        invariant
            n == buttons@.num_buttons,
            i <= n,
            encodable(store@.images, lcd@),
            message_views(out@) == first + image_messages(store@.images, i as nat),
        decreases n - i,
    {
        let ghost before = out@;
        match store.get_image(i) {
            Some(image) => {
                assert(base64_len(store@.images[i].data.len()) <= usize::MAX);
                let m = image_update_message(i, &image);
                out.push(m);
                assert(message_views(out@) =~= message_views(before).push(m.view_message()));
            },
            None => {},
        }
        i = i + 1;
        assert(message_views(out@) =~= first + image_messages(store@.images, i as nat));
    }
    let ghost second = message_views(out@);
    let segments = lcd.get_all();
    let mut j: usize = 0;
    while j < segments.len()
        invariant
            j <= segments@.len(),
            segments@.map_values(|s: LcdSegment| s.view_segment()) == lcd@,
            encodable(store@.images, lcd@),
            message_views(out@) == second + lcd@.take(j as int).map_values(|s: LcdSegmentView| lcd_message(s)),
        decreases segments@.len() - j,
    {
        let ghost before = out@;
        assert(segments@[j as int].view_segment() == lcd@[j as int]);
        assert(base64_len(lcd@[j as int].image_data.len()) <= usize::MAX);
        let m = lcd_update_message(&segments[j]);
        out.push(m);
        assert(message_views(out@) =~= message_views(before).push(m.view_message()));
        j = j + 1;
        assert(lcd@.take(j as int).map_values(|s: LcdSegmentView| lcd_message(s))
            =~= lcd@.take(j - 1).map_values(|s: LcdSegmentView| lcd_message(s)).push(lcd_message(lcd@[j - 1])));
        assert(message_views(out@) =~= second + lcd@.take(j as int).map_values(|s: LcdSegmentView| lcd_message(s)));
    }
    assert(lcd@.take(j as int) =~= lcd@);
    out
}

/// The image messages for the first keys are exactly one per key with a
/// stored image, in key order, key 0 included: for every key below `n` that
/// has an image there is a message for it carrying the base64 text of its
/// bytes, and every message is for such a key, with keys strictly increasing.
pub proof fn law_image_messages_cover_stored_keys(images: Map<u8, crate::device::image::ImageView>, n: nat)
    requires
        n <= 256,
    ensures
        forall|k: int| 0 <= k < n && #[trigger] images.contains_key(k as u8) ==> image_messages(images, n).contains(
            WsMessageView::ImageUpdate { button_id: k as u8, image_data: base64_standard(images[k as u8].data) },
        ),
        forall|i: int| 0 <= i < image_messages(images, n).len() ==> (#[trigger] image_messages(images, n)[i] matches
            WsMessageView::ImageUpdate { button_id, image_data } && button_id < n && images.contains_key(button_id)
            && image_data == base64_standard(images[button_id].data)),
        forall|i: int, j: int| 0 <= i < j < image_messages(images, n).len() ==> (#[trigger] image_messages(images, n)[i]
            matches WsMessageView::ImageUpdate { button_id: a, .. } && (#[trigger] image_messages(images, n)[j]
            matches WsMessageView::ImageUpdate { button_id: b, .. } && a < b)),
    decreases n,
{
    if n > 0 {
        law_image_messages_cover_stored_keys(images, (n - 1) as nat);
        let earlier = image_messages(images, (n - 1) as nat);
        let all = image_messages(images, n);
        let k = (n - 1) as u8;
        assert(k as int == n - 1);
        if images.contains_key(k) {
            let m = WsMessageView::ImageUpdate { button_id: k, image_data: base64_standard(images[k].data) };
            assert(all == earlier.push(m));
            assert forall|q: int| 0 <= q < n && #[trigger] images.contains_key(q as u8) implies all.contains(
                WsMessageView::ImageUpdate { button_id: q as u8, image_data: base64_standard(images[q as u8].data) }) by {
                if q < n - 1 {
                    let mq = WsMessageView::ImageUpdate { button_id: q as u8, image_data: base64_standard(images[q as u8].data) };
                    let j = choose|j: int| 0 <= j < earlier.len() && earlier[j] == mq;
                    assert(all[j] == mq);
                } else {
                    assert(all[earlier.len() as int] == m);
                }
            }
            assert forall|i: int| 0 <= i < all.len() implies (#[trigger] all[i] matches
                WsMessageView::ImageUpdate { button_id, image_data } && button_id < n && images.contains_key(button_id)
                && image_data == base64_standard(images[button_id].data)) by {
                if i < earlier.len() {
                    assert(all[i] == earlier[i]);
                }
            }
            assert forall|i: int, j: int| 0 <= i < j < all.len() implies (#[trigger] all[i]
                matches WsMessageView::ImageUpdate { button_id: a, .. } && (#[trigger] all[j]
                matches WsMessageView::ImageUpdate { button_id: b, .. } && a < b)) by {
                assert(all[i] == earlier[i]);
                assert(earlier[i] matches WsMessageView::ImageUpdate { button_id: a, .. } && a < n - 1);
                if j < earlier.len() {
                    assert(all[j] == earlier[j]);
                }
            }
        } else {
            assert(all == earlier);
            assert forall|q: int| 0 <= q < n && #[trigger] images.contains_key(q as u8) implies all.contains(
                WsMessageView::ImageUpdate { button_id: q as u8, image_data: base64_standard(images[q as u8].data) }) by {
                assert(q < n - 1);
            }
        }
    }
}

} // verus!
