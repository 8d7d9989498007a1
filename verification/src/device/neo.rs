//! Stream Deck Neo touch points and their RGB LEDs.

use vstd::prelude::*;
use vstd::std_specs::convert::FromSpecImpl;
use crate::bytes::{zeroed, zeros};

verus! {

/// Touch point of the Neo.
#[derive(Debug, Clone, Copy, PartialEq, Eq, Structural)]
pub enum NeoTouchPoint {
    /// Left touch point (button index 8).
    Left,
    /// Right touch point (button index 9).
    Right,
}

impl NeoTouchPoint {
    /// Position of the touch point (left = 0, right = 1).
    pub open spec fn position(self) -> int {
        match self {
            NeoTouchPoint::Left => 0,
            NeoTouchPoint::Right => 1,
        }
    }

    fn index(&self) -> (r: usize)
        ensures
            r == self.position(),
    {
        match self {
            NeoTouchPoint::Left => 0,
            NeoTouchPoint::Right => 1,
        }
    }

    /// Button state index of the touch point: it follows the 8 keys.
    pub fn button_index(&self) -> (r: u8)
        ensures
            r == 8 + self.position(),
    {
        8 + self.index() as u8
    }

    /// Index that names the touch point in a LED colour command (key count + position).
    pub fn key_offset(&self) -> (r: u8)
        ensures
            r == 8 + self.position(),
    {
        8 + self.index() as u8
    }
}

impl From<u8> for NeoTouchPoint {
    fn from(value: u8) -> (r: Self) {
        match value {
            0 => NeoTouchPoint::Left,
            _ => NeoTouchPoint::Right,
        }
    }
}

impl FromSpecImpl<u8> for NeoTouchPoint {
    open spec fn obeys_from_spec() -> bool {
        true
    }

    open spec fn from_spec(value: u8) -> NeoTouchPoint {
        if value == 0 { NeoTouchPoint::Left } else { NeoTouchPoint::Right }
    }
}

/// RGB colour of a touch point LED.
#[derive(Debug, Clone, Copy, PartialEq, Eq, Structural)]
pub struct RgbColor {
    pub r: u8,
    pub g: u8,
    pub b: u8,
}

impl Default for RgbColor {
    fn default() -> (c: Self)
        ensures
            c == (RgbColor { r: 0, g: 0, b: 0 }),
    {
        RgbColor { r: 0, g: 0, b: 0 }
    }
}

impl RgbColor {
    /// A colour from its three components.
    pub fn new(r: u8, g: u8, b: u8) -> (c: Self)
        ensures
            c == (RgbColor { r, g, b }),
    {
        RgbColor { r, g, b }
    }

    /// Black (LED off).
    pub fn black() -> (c: Self)
        ensures
            c == (RgbColor { r: 0, g: 0, b: 0 }),
    {
        Self::new(0, 0, 0)
    }

    /// White.
    pub fn white() -> (c: Self)
        ensures
            c == (RgbColor { r: 255, g: 255, b: 255 }),
    {
        Self::new(255, 255, 255)
    }

    /// Red.
    pub fn red() -> (c: Self)
        ensures
            c == (RgbColor { r: 255, g: 0, b: 0 }),
    {
        Self::new(255, 0, 0)
    }

    /// Green.
    pub fn green() -> (c: Self)
        ensures
            c == (RgbColor { r: 0, g: 255, b: 0 }),
    {
        Self::new(0, 255, 0)
    }

    /// Blue.
    pub fn blue() -> (c: Self)
        ensures
            c == (RgbColor { r: 0, g: 0, b: 255 }),
    {
        Self::new(0, 0, 255)
    }
}

/// LED colours of the Neo's two touch points.
#[derive(Debug, Clone, Copy)]
pub struct NeoInputState {
    led_colors: [RgbColor; 2],
}

impl View for NeoInputState {
    type V = Seq<RgbColor>;

    closed spec fn view(&self) -> Seq<RgbColor> {
        self.led_colors@
    }
}

/// The 32-byte SET_REPORT payload that sets a touch point's LED colour:
/// report id 0x03, command 0x06, touch point index, red, green, blue.
pub open spec fn led_color_report_spec(point: NeoTouchPoint, c: RgbColor) -> Seq<u8> {
    zeros(32).update(0, 0x03).update(1, 0x06).update(2, (8 + point.position()) as u8).update(3, c.r).update(4, c.g).update(5, c.b)
}

impl Default for NeoInputState {
    fn default() -> (s: Self)
        ensures
            s@ == seq![RgbColor { r: 0, g: 0, b: 0 }, RgbColor { r: 0, g: 0, b: 0 }],
    {
        Self::new()
    }
}

impl NeoInputState {
    /// The state holds one colour per touch point.
    pub proof fn lemma_led_slots(&self)
        ensures
            self@.len() == 2,
    {
        broadcast use vstd::array::array_len_matches_n;
        assert(self.led_colors@.len() == 2);
    }

    /// Creates the state with both LEDs off.
    pub fn new() -> (s: Self)
        ensures
            s@ == seq![RgbColor { r: 0, g: 0, b: 0 }, RgbColor { r: 0, g: 0, b: 0 }],
    {
        let s = NeoInputState { led_colors: [RgbColor::black(), RgbColor::black()] };
        assert(s@ =~= seq![RgbColor { r: 0, g: 0, b: 0 }, RgbColor { r: 0, g: 0, b: 0 }]);
        s
    }

    /// Returns the LED colour of a touch point.
    pub fn get_led_color(&self, point: NeoTouchPoint) -> (c: RgbColor)
        ensures
            self@.len() == 2,
            c == self@[point.position()],
    {
        proof { self.lemma_led_slots(); }
        self.led_colors[point.index()]
    }

    /// Stores the LED colour of a touch point; the other point keeps its colour.
    pub fn set_led_color(&mut self, point: NeoTouchPoint, color: RgbColor)
        ensures
            old(self)@.len() == 2,
            final(self)@ == old(self)@.update(point.position(), color),
    {
        proof { self.lemma_led_slots(); }
        self.led_colors[point.index()] = color;
    }

    /// Builds the SET_REPORT payload for a touch point's current LED colour.
    pub fn build_led_color_report(&self, point: NeoTouchPoint) -> (r: Vec<u8>)
        ensures
            r@ == led_color_report_spec(point, self@[point.position()]),
    {
        let color = self.get_led_color(point);
        let mut report = zeroed(32);
        report.set(0, 0x03);
        report.set(1, 0x06);
        report.set(2, point.key_offset());
        report.set(3, color.r);
        report.set(4, color.g);
        report.set(5, color.b);
        report
    }
}

/// On any state, a stored LED colour reads back, and the other touch point
/// keeps its colour.
pub proof fn law_led_color_reads_back(s: NeoInputState, point: NeoTouchPoint, other: NeoTouchPoint, c: RgbColor)
    requires
        other != point,
    ensures
        s@.update(point.position(), c)[point.position()] == c,
        s@.update(point.position(), c)[other.position()] == s@[other.position()],
{
    s.lemma_led_slots();
}

} // verus!
