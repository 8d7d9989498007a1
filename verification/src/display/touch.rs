//! Touch gestures on the Stream Deck + touchscreen strip.

use vstd::prelude::*;
use crate::device::plus::{min_u16, PlusInputState, PlusInputView, TouchEvent, TouchEventType, TOUCH_MAX_X, TOUCH_MAX_Y};

verus! {

/// Minimum distance (in strip pixels) for a movement to count as a swipe.
pub const SWIPE_MIN_DISTANCE: u16 = 50;
/// Minimum duration (in ms) of a long press.
pub const LONG_PRESS_MIN_MS: u128 = 500;

/// Gesture recognised on the touchscreen strip.
#[derive(Debug, Clone, Copy, PartialEq, Eq, Structural)]
pub enum TouchGesture {
    /// Short tap at the start position.
    ShortTap { x: u16, y: u16 },
    /// Long press at the start position.
    LongPress { x: u16, y: u16 },
    /// Drag from start to end.
    Drag { start_x: u16, start_y: u16, end_x: u16, end_y: u16 },
}

/// Distance between two coordinates.
pub open spec fn gap(a: u16, b: u16) -> int {
    if a >= b { a - b } else { b - a }
}

/// The gesture of a touch from (start_x, start_y) to (end_x, end_y) that
/// lasted `duration_ms`: a drag if it moved at least the swipe distance along
/// either axis, otherwise a long press if it lasted long enough, otherwise a tap.
pub open spec fn gesture_spec(start_x: u16, start_y: u16, end_x: u16, end_y: u16, duration_ms: u128) -> TouchGesture {
    if gap(start_x, end_x) >= SWIPE_MIN_DISTANCE || gap(start_y, end_y) >= SWIPE_MIN_DISTANCE {
        TouchGesture::Drag { start_x, start_y, end_x, end_y }
    } else if duration_ms >= LONG_PRESS_MIN_MS {
        TouchGesture::LongPress { x: start_x, y: start_y }
    } else {
        TouchGesture::ShortTap { x: start_x, y: start_y }
    }
}

fn distance(a: u16, b: u16) -> (r: u16)
    ensures
        r == gap(a, b),
{
    if a >= b { a - b } else { b - a }
}

/// Recognises the gesture of a finished touch.
pub fn classify_gesture(start_x: u16, start_y: u16, end_x: u16, end_y: u16, duration_ms: u128) -> (r: TouchGesture)
    ensures
        r == gesture_spec(start_x, start_y, end_x, end_y, duration_ms),
{
    let dx = distance(end_x, start_x);
    let dy = distance(end_y, start_y);
    let moved = if dx > dy { dx } else { dy };
    if moved >= SWIPE_MIN_DISTANCE {
        TouchGesture::Drag { start_x, start_y, end_x, end_y }
    } else if duration_ms >= LONG_PRESS_MIN_MS {
        TouchGesture::LongPress { x: start_x, y: start_y }
    } else {
        TouchGesture::ShortTap { x: start_x, y: start_y }
    }
}

/// Tracks one touch on the strip from its start to its end.
#[derive(Debug, Clone, Copy)]
pub struct TouchTracker {
    start: Option<(u16, u16)>,
}

impl View for TouchTracker {
    type V = Option<(u16, u16)>;

    closed spec fn view(&self) -> Option<(u16, u16)> {
        self.start
    }
}

impl TouchTracker {
    /// A tracker with no touch in progress.
    pub fn new() -> (r: Self)
        ensures
            r@ is None,
    {
        TouchTracker { start: None }
    }

    /// Whether a touch is in progress.
    pub fn is_touching(&self) -> (r: bool)
        ensures
            r == self@ is Some,
    {
        self.start.is_some()
    }

    /// Where the touch in progress started.
    pub fn touch_start(&self) -> (r: Option<(u16, u16)>)
        ensures
            r == self@,
    {
        self.start
    }

    /// A touch starts at (x, y).
    pub fn on_touch_start(&mut self, x: u16, y: u16)
        ensures
            final(self)@ == Some((x, y)),
    {
        self.start = Some((x, y));
    }

    /// The touch ends at (x, y) after `duration_ms`: returns its gesture, or
    /// `None` if no touch was in progress.
    pub fn on_touch_end(&mut self, x: u16, y: u16, duration_ms: u128) -> (r: Option<TouchGesture>)
        ensures
            final(self)@ is None,
            r == match old(self)@ {
                Some((sx, sy)) => Some(gesture_spec(sx, sy, x, y, duration_ms)),
                None => None,
            },
    {
        let r = match self.start {
            Some((sx, sy)) => Some(classify_gesture(sx, sy, x, y, duration_ms)),
            None => None,
        };
        self.start = None;
        r
    }

    /// The touch left the strip: it is dropped without a gesture.
    pub fn on_touch_cancel(&mut self)
        ensures
            final(self)@ is None,
    {
        self.start = None;
    }
}

/// The touch event that reports a gesture to the host: a tap, a long press
/// or a drag, with its coordinates clamped to the strip.
pub open spec fn gesture_event(g: TouchGesture) -> TouchEvent {
    match g {
        TouchGesture::ShortTap { x, y } => TouchEvent {
            event_type: TouchEventType::Short,
            x: min_u16(x, TOUCH_MAX_X),
            y: min_u16(y, TOUCH_MAX_Y),
            x_end: 0,
            y_end: 0,
        },
        TouchGesture::LongPress { x, y } => TouchEvent {
            event_type: TouchEventType::Long,
            x: min_u16(x, TOUCH_MAX_X),
            y: min_u16(y, TOUCH_MAX_Y),
            x_end: 0,
            y_end: 0,
        },
        TouchGesture::Drag { start_x, start_y, end_x, end_y } => TouchEvent {
            event_type: TouchEventType::Drag,
            x: min_u16(start_x, TOUCH_MAX_X),
            y: min_u16(start_y, TOUCH_MAX_Y),
            x_end: min_u16(end_x, TOUCH_MAX_X),
            y_end: min_u16(end_y, TOUCH_MAX_Y),
        },
    }
}

/// Queues the touch event of a gesture on the emulated Stream Deck +: a
/// tap, a long press or a swipe; the knobs are untouched.
pub fn apply_gesture(plus: &mut PlusInputState, gesture: TouchGesture)
    ensures
        final(plus)@ == (PlusInputView { touch: Some(gesture_event(gesture)), ..old(plus)@ }),
{
    match gesture {
        TouchGesture::ShortTap { x, y } => plus.tap(x, y),
        TouchGesture::LongPress { x, y } => plus.long_press(x, y),
        TouchGesture::Drag { start_x, start_y, end_x, end_y } => plus.swipe(start_x, start_y, end_x, end_y),
    }
}

/// A touch that barely moves is never a drag, and a drag keeps both end points.
pub proof fn law_gesture_kinds(sx: u16, sy: u16, ex: u16, ey: u16, ms: u128)
    ensures
        gap(sx, ex) < SWIPE_MIN_DISTANCE && gap(sy, ey) < SWIPE_MIN_DISTANCE ==> !(gesture_spec(sx, sy, ex, ey, ms) is Drag),
        gesture_spec(sx, sy, ex, ey, ms) matches TouchGesture::Drag { start_x, start_y, end_x, end_y }
            ==> start_x == sx && start_y == sy && end_x == ex && end_y == ey,
        gesture_spec(sx, sy, sx, sy, ms) == (if ms >= LONG_PRESS_MIN_MS {
            TouchGesture::LongPress { x: sx, y: sy }
        } else {
            TouchGesture::ShortTap { x: sx, y: sy }
        }),
{
}

/// A touch that moved 50 strip pixels or more along either axis is a drag
/// from its start to its end point, however long it lasted; one that moved
/// less is a long press at its start point when it lasted 500 ms or more,
/// and a tap there otherwise.
pub proof fn law_movement_decides_before_duration(sx: u16, sy: u16, ex: u16, ey: u16, ms: u128, other_ms: u128)
    ensures
        gap(sx, ex) >= 50 || gap(sy, ey) >= 50 ==> gesture_spec(sx, sy, ex, ey, ms)
            == (TouchGesture::Drag { start_x: sx, start_y: sy, end_x: ex, end_y: ey }),
        gap(sx, ex) >= 50 || gap(sy, ey) >= 50 ==> gesture_spec(sx, sy, ex, ey, ms) == gesture_spec(sx, sy, ex, ey, other_ms),
        gap(sx, ex) < 50 && gap(sy, ey) < 50 && ms >= 500 ==> gesture_spec(sx, sy, ex, ey, ms)
            == (TouchGesture::LongPress { x: sx, y: sy }),
        gap(sx, ex) < 50 && gap(sy, ey) < 50 && ms < 500 ==> gesture_spec(sx, sy, ex, ey, ms)
            == (TouchGesture::ShortTap { x: sx, y: sy }),
{
}

} // verus!
