//! Stream Deck + inputs: touchscreen strip events and rotary knobs, and the
//! input reports that carry them.

use vstd::prelude::*;
use vstd::std_specs::convert::FromSpecImpl;
use crate::bytes::{hi, lo, zeroed, zeros};

verus! {

/// Width of the touchscreen strip in touch coordinates.
pub const TOUCH_MAX_X: u16 = 799;
/// Height of the touchscreen strip in touch coordinates.
pub const TOUCH_MAX_Y: u16 = 99;
/// Number of knobs on the Stream Deck +.
pub const MAX_KNOBS: usize = 4;

/// Touch event types of the touchscreen strip.
#[derive(Debug, Clone, Copy, PartialEq, Eq, Structural)]
pub enum TouchEventType {
    /// Short tap (code 0x01).
    Short,
    /// Long press (code 0x02).
    Long,
    /// Drag / swipe (code 0x03).
    Drag,
}

impl TouchEventType {
    /// Protocol code of the event type.
    pub open spec fn code_spec(self) -> u8 {
        match self {
            TouchEventType::Short => 0x01,
            TouchEventType::Long => 0x02,
            TouchEventType::Drag => 0x03,
        }
    }

    /// Returns the protocol code of the event type.
    pub fn code(&self) -> (r: u8)
        ensures
            r == self.code_spec(),
    {
        match self {
            TouchEventType::Short => 0x01,
            TouchEventType::Long => 0x02,
            TouchEventType::Drag => 0x03,
        }
    }
}

/// A touchscreen event to be sent to the host.
#[derive(Debug, Clone, Copy)]
pub struct TouchEvent {
    /// Event type.
    pub event_type: TouchEventType,
    /// X coordinate of the touch start (0-799).
    pub x: u16,
    /// Y coordinate of the touch start (0-99).
    pub y: u16,
    /// X coordinate of the touch end (0-799), used by drags.
    pub x_end: u16,
    /// Y coordinate of the touch end (0-99), used by drags.
    pub y_end: u16,
}

/// Smaller of two u16 values.
pub open spec fn min_u16(a: u16, b: u16) -> u16 {
    if a < b { a } else { b }
}

fn clamp(v: u16, max: u16) -> (r: u16)
    ensures
        r == min_u16(v, max),
{
    if v < max { v } else { max }
}

/// Segment (0 = A ... 3 = D) of the 800-pixel strip that x falls in.
pub open spec fn segment_of(x: u16) -> u8 {
    if x / 200 < 3 { (x / 200) as u8 } else { 3 }
}

/// The 512-byte input report of a touch event: report id 0x01, event kind
/// 0x02 (touchscreen), payload length 14, event type, 0x01, then the start
/// and end coordinates as little-endian u16.
pub open spec fn touch_report_spec(e: TouchEvent) -> Seq<u8> {
    zeros(512)
        .update(0, 0x01).update(1, 0x02).update(2, 0x0E).update(3, 0x00)
        .update(4, e.event_type.code_spec()).update(5, 0x01)
        .update(6, lo(e.x)).update(7, hi(e.x))
        .update(8, lo(e.y)).update(9, hi(e.y))
        .update(10, lo(e.x_end)).update(11, hi(e.x_end))
        .update(12, lo(e.y_end)).update(13, hi(e.y_end))
}

/// Writes `v` little-endian at `at` and `at + 1`.
fn put_u16_le(buf: &mut Vec<u8>, at: usize, v: u16)
    requires
        at + 1 < old(buf)@.len(),
    ensures
        final(buf)@ == old(buf)@.update(at as int, lo(v)).update(at + 1, hi(v)),
{
    let l: u8 = #[verifier::truncate] ((v & 0xFF) as u8);
    let h: u8 = #[verifier::truncate] (((v >> 8) & 0xFF) as u8);
    assert(#[verifier::truncate] ((v & 0xFF) as u8) == lo(v)) by (bit_vector);
    assert(#[verifier::truncate] (((v >> 8) & 0xFF) as u8) == hi(v)) by (bit_vector);
    let n = buf.len();
    assert(at + 1 < n);
    buf.set(at, l);
    buf.set(at + 1, h);
}

impl TouchEvent {
    /// A short tap at (x, y), clamped to the strip.
    pub fn short_tap(x: u16, y: u16) -> (r: Self)
        ensures
            r.event_type == TouchEventType::Short,
            r.x == min_u16(x, TOUCH_MAX_X),
            r.y == min_u16(y, TOUCH_MAX_Y),
            r.x_end == 0,
            r.y_end == 0,
    {
        TouchEvent { event_type: TouchEventType::Short, x: clamp(x, 799), y: clamp(y, 99), x_end: 0, y_end: 0 }
    }

    /// A long press at (x, y), clamped to the strip.
    pub fn long_press(x: u16, y: u16) -> (r: Self)
        ensures
            r.event_type == TouchEventType::Long,
            r.x == min_u16(x, TOUCH_MAX_X),
            r.y == min_u16(y, TOUCH_MAX_Y),
            r.x_end == 0,
            r.y_end == 0,
    {
        TouchEvent { event_type: TouchEventType::Long, x: clamp(x, 799), y: clamp(y, 99), x_end: 0, y_end: 0 }
    }

    /// A drag from (x_start, y_start) to (x_end, y_end), clamped to the strip.
    pub fn drag(x_start: u16, y_start: u16, x_end: u16, y_end: u16) -> (r: Self)
        ensures
            r.event_type == TouchEventType::Drag,
            r.x == min_u16(x_start, TOUCH_MAX_X),
            r.y == min_u16(y_start, TOUCH_MAX_Y),
            r.x_end == min_u16(x_end, TOUCH_MAX_X),
            r.y_end == min_u16(y_end, TOUCH_MAX_Y),
    {
        TouchEvent {
            event_type: TouchEventType::Drag,
            x: clamp(x_start, 799),
            y: clamp(y_start, 99),
            x_end: clamp(x_end, 799),
            y_end: clamp(y_end, 99),
        }
    }

    /// A horizontal drag along the middle of the strip (y = 50).
    pub fn swipe_horizontal(x_start: u16, x_end: u16) -> (r: Self)
        ensures
            r.event_type == TouchEventType::Drag,
            r.x == min_u16(x_start, TOUCH_MAX_X),
            r.y == 50,
            r.x_end == min_u16(x_end, TOUCH_MAX_X),
            r.y_end == 50,
    {
        Self::drag(x_start, 50, x_end, 50)
    }

    /// The segment (A = 0 ... D = 3) that the touch starts in.
    pub fn segment(&self) -> (r: u8)
        ensures
            r == segment_of(self.x),
    {
        let s = self.x / 200;
        if s < 3 { s as u8 } else { 3 }
    }

    /// The segment that a drag ends in.
    pub fn end_segment(&self) -> (r: u8)
        ensures
            r == segment_of(self.x_end),
    {
        let s = self.x_end / 200;
        if s < 3 { s as u8 } else { 3 }
    }

    /// Builds the 512-byte input report of this event.
    pub fn build_input_report(&self) -> (r: Vec<u8>)
        ensures
            r@ == touch_report_spec(*self),
    {
        let mut report = zeroed(512);
        report.set(0, 0x01);
        report.set(1, 0x02);
        report.set(2, 0x0E);
        report.set(3, 0x00);
        report.set(4, self.event_type.code());
        report.set(5, 0x01);
        put_u16_le(&mut report, 6, self.x);
        put_u16_le(&mut report, 8, self.y);
        put_u16_le(&mut report, 10, self.x_end);
        put_u16_le(&mut report, 12, self.y_end);
        report
    }
}

/// Knob (rotary encoder) index.
#[derive(Debug, Clone, Copy, PartialEq, Eq, Structural)]
pub enum KnobIndex {
    A,
    B,
    C,
    D,
}

impl KnobIndex {
    /// Position of the knob (A = 0 ... D = 3).
    pub open spec fn index_spec(self) -> int {
        match self {
            KnobIndex::A => 0,
            KnobIndex::B => 1,
            KnobIndex::C => 2,
            KnobIndex::D => 3,
        }
    }

    /// Returns the position of the knob (A = 0 ... D = 3).
    pub fn index(&self) -> (r: usize)
        ensures
            r == self.index_spec(),
    {
        match self {
            KnobIndex::A => 0,
            KnobIndex::B => 1,
            KnobIndex::C => 2,
            KnobIndex::D => 3,
        }
    }

    /// Knob for a position; anything past C selects D.
    pub open spec fn from_position(value: u8) -> KnobIndex {
        if value == 0 {
            KnobIndex::A
        } else if value == 1 {
            KnobIndex::B
        } else if value == 2 {
            KnobIndex::C
        } else {
            KnobIndex::D
        }
    }
}

impl From<u8> for KnobIndex {
    fn from(value: u8) -> (r: Self) {
        match value {
            0 => KnobIndex::A,
            1 => KnobIndex::B,
            2 => KnobIndex::C,
            _ => KnobIndex::D,
        }
    }
}

impl FromSpecImpl<u8> for KnobIndex {
    open spec fn obeys_from_spec() -> bool {
        true
    }

    open spec fn from_spec(value: u8) -> KnobIndex {
        KnobIndex::from_position(value)
    }
}

/// Knob rotation direction.
#[derive(Debug, Clone, Copy, PartialEq, Eq, Structural)]
pub enum KnobDirection {
    /// Clockwise rotation.
    Clockwise,
    /// Counter-clockwise rotation.
    CounterClockwise,
}

/// A knob event to be sent to the host.
#[derive(Debug, Clone, Copy)]
pub enum KnobEvent {
    /// Knob pressed.
    Press(KnobIndex),
    /// Knob released.
    Release(KnobIndex),
    /// Knob turned by `steps` in `direction`.
    Turn { knob: KnobIndex, direction: KnobDirection, steps: u8 },
}

/// Header of a knob input report: report id 0x01, event kind 0x03 (knob),
/// payload length 5, 0x00, then the turn flag.
pub open spec fn knob_report_header(is_turn: bool) -> Seq<u8> {
    zeros(512).update(0, 0x01).update(1, 0x03).update(2, 0x05).update(3, 0x00).update(4, if is_turn { 1u8 } else { 0u8 })
}

/// Byte that encodes `steps` clockwise steps (at most 127).
pub open spec fn clockwise_byte(steps: u8) -> u8 {
    if steps < 127 { steps } else { 127 }
}

/// Byte that encodes `steps` counter-clockwise steps (at most 128): 256 - steps,
/// so 1 step is 0xFF and 128 or more steps are 0x80.
pub open spec fn counter_clockwise_byte(steps: u8) -> u8 {
    if steps == 0 { 0 } else if steps < 128 { (256 - steps) as u8 } else { 0x80 }
}

/// Byte that encodes a signed turn: clockwise steps up to 127, otherwise the
/// two's complement of the (non-positive) step count.
pub open spec fn turn_byte(steps: i8) -> u8 {
    if steps > 0 {
        if steps < 127 { steps as u8 } else { 127 }
    } else {
        ((256 + steps) % 256) as u8
    }
}

/// The 512-byte input report of a knob event.
pub open spec fn knob_event_report_spec(e: KnobEvent) -> Seq<u8> {
    match e {
        KnobEvent::Press(k) => knob_report_header(false).update(5 + k.index_spec(), 0x01),
        KnobEvent::Release(_) => knob_report_header(false),
        KnobEvent::Turn { knob, direction, steps } => knob_report_header(true).update(
            5 + knob.index_spec(),
            match direction {
                KnobDirection::Clockwise => clockwise_byte(steps),
                KnobDirection::CounterClockwise => counter_clockwise_byte(steps),
            },
        ),
    }
}

fn knob_header(is_turn: bool) -> (r: Vec<u8>)
    ensures
        r@ == knob_report_header(is_turn),
{
    let mut report = zeroed(512);
    report.set(0, 0x01);
    report.set(1, 0x03);
    report.set(2, 0x05);
    report.set(3, 0x00);
    report.set(4, if is_turn { 0x01 } else { 0x00 });
    report
}

impl KnobEvent {
    /// Builds the 512-byte input report of this event. A release clears all
    /// knob bytes, since the report carries the state of every knob.
    pub fn build_input_report(&self) -> (r: Vec<u8>)
        ensures
            r@ == knob_event_report_spec(*self),
    {
        match self {
            KnobEvent::Press(knob) => {
                let mut report = knob_header(false);
                report.set(5 + knob.index(), 0x01);
                report
            },
            KnobEvent::Release(_knob) => knob_header(false),
            KnobEvent::Turn { knob, direction, steps } => {
                let mut report = knob_header(true);
                let value: u8 = match direction {
                    KnobDirection::Clockwise => if *steps < 127 { *steps } else { 127 },
                    KnobDirection::CounterClockwise => {
                        let s: u8 = if *steps < 128 { *steps } else { 128 };
                        #[verifier::truncate] ((256u16 - s as u16) as u8)
                    },
                };
                proof {
                    let s: u8 = if *steps < 128 { *steps } else { 128 };
                    assert(#[verifier::truncate] ((256u16 - s as u16) as u8) == counter_clockwise_byte(*steps)) by (bit_vector)
                        requires s == (if *steps < 128 { *steps } else { 128u8 });
                }
                report.set(5 + knob.index(), value);
                report
            },
        }
    }
}

/// Abstract input state of a Stream Deck +: the pending touch event, the
/// pressed knobs, the rotation accumulated per knob, and the knob change flag.
pub struct PlusInputView {
    pub touch: Option<TouchEvent>,
    pub knob_pressed: Seq<bool>,
    pub knob_rotation: Seq<i8>,
    pub knob_changed: bool,
}

/// Input state of an emulated Stream Deck +: touchscreen and knob events
/// waiting to be sent to the host.
#[derive(Debug)]
pub struct PlusInputState {
    touch: Option<TouchEvent>,
    knob_pressed: [bool; MAX_KNOBS],
    knob_rotation: [i8; MAX_KNOBS],
    knob_changed: bool,
}

impl View for PlusInputState {
    type V = PlusInputView;

    closed spec fn view(&self) -> PlusInputView {
        PlusInputView {
            touch: self.touch,
            knob_pressed: self.knob_pressed@,
            knob_rotation: self.knob_rotation@,
            knob_changed: self.knob_changed,
        }
    }
}

/// The state of a freshly created Stream Deck +: nothing pending.
pub open spec fn idle_plus_view() -> PlusInputView {
    PlusInputView {
        touch: None,
        knob_pressed: Seq::new(MAX_KNOBS as nat, |i: int| false),
        knob_rotation: Seq::new(MAX_KNOBS as nat, |i: int| 0i8),
        knob_changed: false,
    }
}

/// Sum of two i8 values wrapped into i8.
pub open spec fn wrap_i8(v: int) -> i8 {
    if v > 127 { (v - 256) as i8 } else if v < -128 { (v + 256) as i8 } else { v as i8 }
}

/// The 512-byte knob press report of a pressed-state set.
pub open spec fn knob_press_report_spec(pressed: Seq<bool>) -> Seq<u8> {
    Seq::new(512, |j: int|
        if 5 <= j < 9 { if pressed[j - 5] { 1u8 } else { 0u8 } } else { knob_report_header(false)[j] })
}

impl Clone for PlusInputState {
    /// Copies the input state.
    fn clone(&self) -> (r: Self)
        ensures
            r@ == self@,
    {
        PlusInputState {
            touch: self.touch,
            knob_pressed: self.knob_pressed,
            knob_rotation: self.knob_rotation,
            knob_changed: self.knob_changed,
        }
    }
}

impl Default for PlusInputState {
    fn default() -> (r: Self)
        ensures
            r@ == idle_plus_view(),
    {
        Self::new()
    }
}

impl PlusInputState {
    /// The state has one pressed flag and one rotation counter per knob.
    pub proof fn lemma_knob_slots(&self)
        ensures
            self@.knob_pressed.len() == MAX_KNOBS,
            self@.knob_rotation.len() == MAX_KNOBS,
    {
        broadcast use vstd::array::array_len_matches_n;
        assert(self.knob_pressed@.len() == MAX_KNOBS);
        assert(self.knob_rotation@.len() == MAX_KNOBS);
    }

    /// Creates an idle input state.
    pub fn new() -> (r: Self)
        ensures
            r@ == idle_plus_view(),
    {
        let r = PlusInputState {
            touch: None,
            knob_pressed: [false; 4],
            knob_rotation: [0i8; 4],
            knob_changed: false,
        };
        assert(r@.knob_pressed =~= idle_plus_view().knob_pressed);
        assert(r@.knob_rotation =~= idle_plus_view().knob_rotation);
        r
    }

    /// Queues a touch event; it replaces any event still pending.
    pub fn send_touch(&mut self, event: TouchEvent)
        ensures
            final(self)@ == (PlusInputView { touch: Some(event), ..old(self)@ }),
    {
        self.touch = Some(event);
    }

    /// Queues a short tap.
    pub fn tap(&mut self, x: u16, y: u16)
        ensures
            final(self)@.touch matches Some(e) && e.event_type == TouchEventType::Short
                && e.x == min_u16(x, TOUCH_MAX_X) && e.y == min_u16(y, TOUCH_MAX_Y) && e.x_end == 0 && e.y_end == 0,
            final(self)@.knob_pressed == old(self)@.knob_pressed,
            final(self)@.knob_rotation == old(self)@.knob_rotation,
            final(self)@.knob_changed == old(self)@.knob_changed,
    {
        self.send_touch(TouchEvent::short_tap(x, y));
    }

    /// Queues a long press.
    pub fn long_press(&mut self, x: u16, y: u16)
        ensures
            final(self)@.touch matches Some(e) && e.event_type == TouchEventType::Long
                && e.x == min_u16(x, TOUCH_MAX_X) && e.y == min_u16(y, TOUCH_MAX_Y) && e.x_end == 0 && e.y_end == 0,
            final(self)@.knob_pressed == old(self)@.knob_pressed,
            final(self)@.knob_rotation == old(self)@.knob_rotation,
            final(self)@.knob_changed == old(self)@.knob_changed,
    {
        self.send_touch(TouchEvent::long_press(x, y));
    }

    /// Queues a drag.
    pub fn swipe(&mut self, x_start: u16, y_start: u16, x_end: u16, y_end: u16)
        ensures
            final(self)@.touch matches Some(e) && e.event_type == TouchEventType::Drag
                && e.x == min_u16(x_start, TOUCH_MAX_X) && e.y == min_u16(y_start, TOUCH_MAX_Y)
                && e.x_end == min_u16(x_end, TOUCH_MAX_X) && e.y_end == min_u16(y_end, TOUCH_MAX_Y),
            final(self)@.knob_pressed == old(self)@.knob_pressed,
            final(self)@.knob_rotation == old(self)@.knob_rotation,
            final(self)@.knob_changed == old(self)@.knob_changed,
    {
        self.send_touch(TouchEvent::drag(x_start, y_start, x_end, y_end));
    }

    /// Queues a horizontal drag along the middle of the strip.
    pub fn swipe_horizontal(&mut self, x_start: u16, x_end: u16)
        ensures
            final(self)@.touch matches Some(e) && e.event_type == TouchEventType::Drag
                && e.x == min_u16(x_start, TOUCH_MAX_X) && e.y == 50
                && e.x_end == min_u16(x_end, TOUCH_MAX_X) && e.y_end == 50,
            final(self)@.knob_pressed == old(self)@.knob_pressed,
            final(self)@.knob_rotation == old(self)@.knob_rotation,
            final(self)@.knob_changed == old(self)@.knob_changed,
    {
        self.send_touch(TouchEvent::swipe_horizontal(x_start, x_end));
    }

    /// Takes the pending touch event, if any.
    pub fn take_touch_event(&mut self) -> (r: Option<TouchEvent>)
        ensures
            r == old(self)@.touch,
            final(self)@ == (PlusInputView { touch: None, ..old(self)@ }),
    {
        let r = self.touch;
        self.touch = None;
        r
    }

    /// Presses a knob; the change flag is raised if it was released.
    pub fn press_knob(&mut self, knob: KnobIndex)
        ensures
            final(self)@ == (PlusInputView {
                knob_pressed: old(self)@.knob_pressed.update(knob.index_spec(), true),
                knob_changed: old(self)@.knob_changed || !old(self)@.knob_pressed[knob.index_spec()],
                ..old(self)@
            }),
    {
        let idx = knob.index();
        let was_pressed = self.knob_pressed[idx];
        self.knob_pressed[idx] = true;
        if !was_pressed {
            self.knob_changed = true;
        }
    }

    /// Releases a knob; the change flag is raised if it was pressed.
    pub fn release_knob(&mut self, knob: KnobIndex)
        ensures
            final(self)@ == (PlusInputView {
                knob_pressed: old(self)@.knob_pressed.update(knob.index_spec(), false),
                knob_changed: old(self)@.knob_changed || old(self)@.knob_pressed[knob.index_spec()],
                ..old(self)@
            }),
    {
        let idx = knob.index();
        let was_pressed = self.knob_pressed[idx];
        self.knob_pressed[idx] = false;
        if was_pressed {
            self.knob_changed = true;
        }
    }

    /// Turns a knob by `steps` (positive = clockwise). Steps accumulate, wrapping
    /// as an 8-bit signed counter, until taken; zero steps change nothing.
    pub fn turn_knob(&mut self, knob: KnobIndex, steps: i8)
        ensures
            steps == 0 ==> final(self)@ == old(self)@,
            steps != 0 ==> final(self)@ == (PlusInputView {
                knob_rotation: old(self)@.knob_rotation.update(
                    knob.index_spec(),
                    wrap_i8(old(self)@.knob_rotation[knob.index_spec()] + steps),
                ),
                knob_changed: true,
                ..old(self)@
            }),
    {
        let idx = knob.index();
        if steps != 0 {
            let cur = self.knob_rotation[idx];
            let next = cur.wrapping_add(steps);
            assert(next == wrap_i8(cur + steps)) by (bit_vector)
                requires next == cur.wrapping_add(steps);
            self.knob_rotation[idx] = next;
            self.knob_changed = true;
        }
    }

    /// Whether a knob is pressed.
    pub fn is_knob_pressed(&self, knob: KnobIndex) -> (r: bool)
        ensures
            r == self@.knob_pressed[knob.index_spec()],
    {
        self.knob_pressed[knob.index()]
    }

    /// Takes the rotation accumulated for a knob and resets it to 0.
    pub fn take_knob_rotation(&mut self, knob: KnobIndex) -> (r: i8)
        ensures
            r == old(self)@.knob_rotation[knob.index_spec()],
            final(self)@ == (PlusInputView {
                knob_rotation: old(self)@.knob_rotation.update(knob.index_spec(), 0),
                ..old(self)@
            }),
    {
        let idx = knob.index();
        let r = self.knob_rotation[idx];
        self.knob_rotation[idx] = 0;
        r
    }

    /// Returns whether any knob state changed since the last call, and clears the flag.
    pub fn take_knob_changed(&mut self) -> (r: bool)
        ensures
            r == old(self)@.knob_changed,
            final(self)@ == (PlusInputView { knob_changed: false, ..old(self)@ }),
    {
        let r = self.knob_changed;
        self.knob_changed = false;
        r
    }

    /// Builds the 512-byte report of the pressed state of all four knobs.
    pub fn build_knob_press_report(&self) -> (r: Vec<u8>)
        ensures
            r@ == knob_press_report_spec(self@.knob_pressed),
    {
        let mut report = knob_header(false);
        let mut i: usize = 0;
        while i < MAX_KNOBS
            invariant
                i <= MAX_KNOBS,
                report@.len() == 512,
                forall|j: int| 0 <= j < 512 ==> report@[j] == (
                    if 5 <= j < 5 + i { if self.knob_pressed@[j - 5] { 1u8 } else { 0u8 } }
                    else { knob_report_header(false)[j] }),
            decreases MAX_KNOBS - i,
        {
            let b: u8 = if self.knob_pressed[i] { 0x01 } else { 0x00 };
            report.set(5 + i, b);
            i = i + 1;
        }
        assert(report@ =~= knob_press_report_spec(self@.knob_pressed));
        report
    }

    /// Builds the 512-byte report of `steps` turns of one knob.
    pub fn build_knob_turn_report(&self, knob: KnobIndex, steps: i8) -> (r: Vec<u8>)
        ensures
            r@ == knob_report_header(true).update(5 + knob.index_spec(), turn_byte(steps)),
    {
        let mut report = knob_header(true);
        let value: u8 = if steps > 0 {
            if steps < 127 { steps as u8 } else { 127 }
        } else {
            #[verifier::truncate] ((256i16 + steps as i16) as u8)
        };
        assert(steps <= 0 ==> #[verifier::truncate] ((256i16 + steps as i16) as u8) == ((256 + steps) % 256) as u8) by (bit_vector);
        report.set(5 + knob.index(), value);
        report
    }
}

/// A signed turn survives its encoding: the report byte read back as a signed
/// byte is the step count (clockwise counts are capped at 127, which is the
/// largest i8 anyway).
pub proof fn law_turn_byte_roundtrip(steps: i8)
    ensures
        turn_byte(steps) as i8 == steps,
{
    assert(turn_byte(steps) as i8 == steps) by (bit_vector);
}

/// Direction-and-count turns encode like the signed turns of the same size:
/// `s` clockwise steps like `s`, `s` counter-clockwise steps like `-s`.
pub proof fn law_direction_matches_signed(s: u8)
    ensures
        1 <= s <= 127 ==> clockwise_byte(s) == turn_byte(s as i8),
        1 <= s <= 128 ==> counter_clockwise_byte(s) == turn_byte((-(s as int)) as i8),
{
    assert(1 <= s <= 127 ==> clockwise_byte(s) == turn_byte(s as i8)) by (bit_vector);
    assert(1 <= s <= 128 ==> counter_clockwise_byte(s) == turn_byte((-(s as int)) as i8)) by (bit_vector);
}

/// A turn of one step or more reads back in its own direction: clockwise
/// bytes lie in 0x01..=0x7F and counter-clockwise bytes in 0x80..=0xFF, so
/// the signed byte is positive for clockwise and negative for
/// counter-clockwise turns, however large the turn.
pub proof fn law_turn_direction_preserved(steps: u8)
    requires
        steps >= 1,
    ensures
        1 <= clockwise_byte(steps) <= 0x7F,
        0x80 <= counter_clockwise_byte(steps) <= 0xFF,
        (clockwise_byte(steps) as i8) > 0,
        (counter_clockwise_byte(steps) as i8) < 0,
{
    let c = clockwise_byte(steps);
    let cc = counter_clockwise_byte(steps);
    assert(1 <= c <= 0x7F ==> (c as i8) > 0) by (bit_vector);
    assert(0x80 <= cc ==> (cc as i8) < 0) by (bit_vector);
}

/// Turns accumulated in the 8-bit counter add up modulo 256, in any grouping.
pub proof fn law_turns_accumulate(x: i8, a: i8, b: i8)
    ensures
        wrap_i8(wrap_i8(x + a) + b) == wrap_i8(x + wrap_i8(a + b)),
        -128 <= x + a + b <= 127 ==> wrap_i8(wrap_i8(x + a) + b) == x + a + b,
{
}

/// The touch report carries the event: its type code at byte 4 and the four
/// coordinates as little-endian u16 at bytes 6-13, which read back unchanged.
pub proof fn law_touch_report_decodes(e: TouchEvent)
    ensures
        touch_report_spec(e).len() == 512,
        touch_report_spec(e)[4] == e.event_type.code_spec(),
        crate::device::image::le_u16(touch_report_spec(e)[6], touch_report_spec(e)[7]) == e.x,
        crate::device::image::le_u16(touch_report_spec(e)[8], touch_report_spec(e)[9]) == e.y,
        crate::device::image::le_u16(touch_report_spec(e)[10], touch_report_spec(e)[11]) == e.x_end,
        crate::device::image::le_u16(touch_report_spec(e)[12], touch_report_spec(e)[13]) == e.y_end,
{
}

/// The touch event types keep their fixed protocol codes in the report:
/// byte 4 is 0x01 for a short tap, 0x02 for a long press and 0x03 for a drag,
/// so no two kinds of touch reach the host alike.
pub proof fn law_touch_kinds_distinct_in_report(e: TouchEvent, other: TouchEvent)
    ensures
        e.event_type == TouchEventType::Short ==> touch_report_spec(e)[4] == 0x01,
        e.event_type == TouchEventType::Long ==> touch_report_spec(e)[4] == 0x02,
        e.event_type == TouchEventType::Drag ==> touch_report_spec(e)[4] == 0x03,
        e.event_type != other.event_type ==> touch_report_spec(e)[4] != touch_report_spec(other)[4],
{
}

/// A touch event queued while another is pending replaces it, and a queued
/// event is taken exactly once.
pub proof fn law_touch_taken_once(v: PlusInputView, first: TouchEvent, second: TouchEvent)
    ensures
        ({
            let queued = PlusInputView { touch: Some(second), ..PlusInputView { touch: Some(first), ..v } };
            let taken = PlusInputView { touch: None, ..queued };
            &&& queued.touch == Some(second)
            &&& taken.touch is None
            &&& taken.knob_pressed == v.knob_pressed
            &&& taken.knob_rotation == v.knob_rotation
            &&& taken.knob_changed == v.knob_changed
        }),
{
}

/// The knob press report carries every knob: byte 5 + k is 1 exactly when
/// knob k is pressed.
pub proof fn law_knob_press_report_carries_knobs(pressed: Seq<bool>, k: KnobIndex)
    ensures
        knob_press_report_spec(pressed)[5 + k.index_spec()] == (if pressed[k.index_spec()] { 1u8 } else { 0u8 }),
        knob_press_report_spec(pressed).len() == 512,
{
}

} // verus!
