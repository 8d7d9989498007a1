//! Button state of an emulated Stream Deck and its encoding as HID input reports.

use vstd::prelude::*;
use crate::bytes::{hi, lo, zeroed, zeros};
use crate::usb::StreamDeckModel;
use crate::usb::descriptors::{mini_report_descriptor, modern_report_descriptor, pedal_report_descriptor};

verus! {

/// Number of button slots kept (the XL has 32 keys).
pub const MAX_BUTTONS: usize = 32;

/// Abstract button state: which slots are pressed, how many buttons the model
/// has, and whether anything changed since the last `take_changed`.
pub struct ButtonStateView {
    pub pressed: Seq<bool>,
    pub num_buttons: u8,
    pub changed: bool,
}

/// Button state of an emulated device.
#[derive(Debug)]
pub struct ButtonState {
    buttons: [bool; MAX_BUTTONS],
    num_buttons: u8,
    changed: bool,
}

/// Byte that encodes a button state in an input report.
pub open spec fn state_byte(pressed: bool) -> u8 {
    if pressed { 1 } else { 0 }
}

/// Input report for the pressed states `pressed` of a device with
/// `num_buttons` buttons, in the format of `model`:
/// - Mini: report id 0x01, then one byte per button, 17 bytes in all;
/// - Pedal: report id 0x01, header 0x00 0x03 0x00, then up to 3 pedal states, 8 bytes;
/// - MK.2/XL/+/Neo: report id 0x01, command 0x00, key count (u16 LE), then one
///   byte per key, 512 bytes in all.
pub open spec fn input_report_spec(pressed: Seq<bool>, num_buttons: u8, model: StreamDeckModel) -> Seq<u8> {
    match model {
        StreamDeckModel::Mini => Seq::new(17, |j: int|
            if j == 0 { 1u8 } else if j - 1 < num_buttons { state_byte(pressed[j - 1]) } else { 0u8 }),
        StreamDeckModel::Pedal => Seq::new(8, |j: int|
            if j == 0 { 1u8 } else if j == 2 { 3u8 } else if 4 <= j && j - 4 < num_buttons && j - 4 < 3 {
                state_byte(pressed[j - 4])
            } else { 0u8 }),
        _ => Seq::new(512, |j: int|
            if j == 0 { 1u8 } else if j == 2 { lo(num_buttons as u16) } else if j == 3 { hi(num_buttons as u16) }
            else if 4 <= j && j - 4 < num_buttons { state_byte(pressed[j - 4]) } else { 0u8 }),
    }
}

impl Clone for ButtonState {
    /// Copies the button state.
    fn clone(&self) -> (r: Self)
        ensures
            r@ == self@,
    {
        proof { use_type_invariant(self); }
        ButtonState { buttons: self.buttons, num_buttons: self.num_buttons, changed: self.changed }
    }
}

/// The state after pressing `button`: a slot past the last one is ignored;
/// otherwise the button is pressed and the change flag is raised if it was released.
pub open spec fn press_view(v: ButtonStateView, button: u8) -> ButtonStateView {
    if button >= MAX_BUTTONS {
        v
    } else {
        ButtonStateView {
            pressed: v.pressed.update(button as int, true),
            num_buttons: v.num_buttons,
            changed: v.changed || !v.pressed[button as int],
        }
    }
}

/// The state after releasing `button`: a slot past the last one is ignored;
/// otherwise the button is released and the change flag is raised if it was pressed.
pub open spec fn release_view(v: ButtonStateView, button: u8) -> ButtonStateView {
    if button >= MAX_BUTTONS {
        v
    } else {
        ButtonStateView {
            pressed: v.pressed.update(button as int, false),
            num_buttons: v.num_buttons,
            changed: v.changed || v.pressed[button as int],
        }
    }
}

/// Whether `button` is pressed in `v`.
pub open spec fn is_pressed_view(v: ButtonStateView, button: u8) -> bool {
    button < MAX_BUTTONS && v.pressed[button as int]
}

impl View for ButtonState {
    type V = ButtonStateView;

    closed spec fn view(&self) -> ButtonStateView {
        ButtonStateView {
            pressed: self.buttons@,
            num_buttons: self.num_buttons, changed: self.changed }
    }
}

impl ButtonState {
    #[verifier::type_invariant]
    closed spec fn inv(&self) -> bool {
        self.num_buttons <= MAX_BUTTONS
    }

    /// The state has one slot per possible button.
    pub proof fn lemma_slots(&self)
        ensures
            self@.pressed.len() == MAX_BUTTONS,
    {
        broadcast use vstd::array::array_len_matches_n;
        assert(self.buttons@.len() == MAX_BUTTONS);
    }

    /// Creates the state of a device of the given model: all buttons released, nothing changed.
    pub fn new(model: StreamDeckModel) -> (r: Self)
        ensures
            r@.pressed == Seq::new(MAX_BUTTONS as nat, |i: int| false),
            r@.num_buttons == model.num_buttons_spec(),
            !r@.changed,
    {
        let buttons = [false; 32];
        let r = ButtonState { buttons, num_buttons: model.num_buttons(), changed: false };
        assert(r@.pressed =~= Seq::new(MAX_BUTTONS as nat, |i: int| false));
        r
    }

    /// Returns the number of buttons.
    pub fn num_buttons(&self) -> (r: u8)
        ensures
            r == self@.num_buttons,
    {
        self.num_buttons
    }

    /// Whether `button` is pressed; always false past the last slot.
    pub fn is_pressed(&self, button: u8) -> (r: bool)
        ensures
            r == is_pressed_view(self@, button),
    {
        if button as usize >= MAX_BUTTONS {
            return false;
        }
        self.buttons[button as usize]
    }

    /// Presses `button`; the change flag is raised if it was released.
    /// A button past the last slot is ignored.
    pub fn press(&mut self, button: u8)
        ensures
            final(self)@ == press_view(old(self)@, button),
    {
        proof { use_type_invariant(&*self); }
        if button as usize >= MAX_BUTTONS {
            return;
        }
        let was_pressed = self.buttons[button as usize];
        self.buttons[button as usize] = true;
        if !was_pressed {
            self.changed = true;
        }
    }

    /// Releases `button`; the change flag is raised if it was pressed.
    /// A button past the last slot is ignored.
    pub fn release(&mut self, button: u8)
        ensures
            final(self)@ == release_view(old(self)@, button),
    {
        proof { use_type_invariant(&*self); }
        if button as usize >= MAX_BUTTONS {
            return;
        }
        let was_pressed = self.buttons[button as usize];
        self.buttons[button as usize] = false;
        if was_pressed {
            self.changed = true;
        }
    }

    /// Returns whether the state changed since the last call, and clears the flag.
    pub fn take_changed(&mut self) -> (r: bool)
        ensures
            r == old(self)@.changed,
            final(self)@ == (ButtonStateView { changed: false, ..old(self)@ }),
    {
        proof { use_type_invariant(&*self); }
        let r = self.changed;
        self.changed = false;
        r
    }

    /// Builds the input report that carries the current button states, in the
    /// format of `model`.
    pub fn build_input_report(&self, model: StreamDeckModel) -> (r: Vec<u8>)
        ensures
            r@ == input_report_spec(self@.pressed, self@.num_buttons, model),
    {
        proof { use_type_invariant(self); }
        let num_buttons = self.num_buttons as usize;
        match model {
            StreamDeckModel::Mini => {
                let hid_config = model.hid_config();
                let mut report = zeroed(hid_config.report_len as usize);
                report.set(0, 0x01);
                let mut i: usize = 0;
                while i < num_buttons
                    invariant
                        self.buttons@.len() == MAX_BUTTONS,
                        num_buttons == self.num_buttons,
                        i <= num_buttons,
                        report@.len() == 17,
                        forall|j: int| 0 <= j < 17 ==> report@[j] == (
                            if j == 0 { 1u8 } else if j - 1 < i { state_byte(self.buttons@[j - 1]) } else { 0u8 }),
                    decreases num_buttons - i,
                {
                    if i + 1 < report.len() {
                        let b: u8 = if self.buttons[i] { 0x01 } else { 0x00 };
                        report.set(i + 1, b);
                    }
                    i = i + 1;
                }
                assert(report@ =~= input_report_spec(self@.pressed, self@.num_buttons, model));
                report
            },
            StreamDeckModel::Pedal => {
                let hid_config = model.hid_config();
                let mut report = zeroed(hid_config.report_len as usize);
                report.set(0, 0x01);
                report.set(1, 0x00);
                report.set(2, 0x03);
                report.set(3, 0x00);
                let n = if num_buttons < 3 { num_buttons } else { 3 };
                let mut i: usize = 0;
                while i < n
                    invariant
                        self.buttons@.len() == MAX_BUTTONS,
                        num_buttons == self.num_buttons,
                        n <= 3,
                        n <= num_buttons,
                        n == num_buttons || n == 3,
                        i <= n,
                        report@.len() == 8,
                        forall|j: int| 0 <= j < 8 ==> report@[j] == (
                            if j == 0 { 1u8 } else if j == 2 { 3u8 } else if 4 <= j && j - 4 < i {
                                state_byte(self.buttons@[j - 4])
                            } else { 0u8 }),
                    decreases n - i,
                {
                    let b: u8 = if self.buttons[i] { 0x01 } else { 0x00 };
                    report.set(4 + i, b);
                    i = i + 1;
                }
                assert(report@ =~= input_report_spec(self@.pressed, self@.num_buttons, model));
                report
            },
            StreamDeckModel::Mk2 | StreamDeckModel::Xl | StreamDeckModel::Plus | StreamDeckModel::Neo => {
                let header_size: usize = 4;
                let mut report = zeroed(512);
                report.set(0, 0x01);
                report.set(1, 0x00);
                let payload_len = num_buttons as u16;
                report.set(2, #[verifier::truncate] ((payload_len & 0xFF) as u8));
                report.set(3, #[verifier::truncate] (((payload_len >> 8) & 0xFF) as u8));
                assert(#[verifier::truncate] ((payload_len & 0xFF) as u8) == lo(payload_len)) by (bit_vector);
                assert(#[verifier::truncate] (((payload_len >> 8) & 0xFF) as u8) == hi(payload_len)) by (bit_vector);
                let mut i: usize = 0;
                while i < num_buttons
                    invariant
                        self.buttons@.len() == MAX_BUTTONS,
                        num_buttons == self.num_buttons,
                        num_buttons <= MAX_BUTTONS,
                        header_size == 4,
                        payload_len == num_buttons,
                        i <= num_buttons,
                        report@.len() == 512,
                        forall|j: int| 0 <= j < 512 ==> report@[j] == (
                            if j == 0 { 1u8 } else if j == 2 { lo(payload_len) } else if j == 3 { hi(payload_len) }
                            else if 4 <= j && j - 4 < i { state_byte(self.buttons@[j - 4]) } else { 0u8 }),
                    decreases num_buttons - i,
                {
                    let b: u8 = if self.buttons[i] { 0x01 } else { 0x00 };
                    report.set(header_size + i, b);
                    i = i + 1;
                }
                assert(report@ =~= input_report_spec(self@.pressed, self@.num_buttons, model));
                report
            },
        }
    }
}

/// Size of input report 1 (report id included) as the model's HID report
/// descriptor declares it: the Report Count item right before Report ID 1.
pub open spec fn declared_input_report_size(model: StreamDeckModel) -> int {
    match model {
        StreamDeckModel::Mini => 1 + mini_report_descriptor()[22],
        StreamDeckModel::Pedal => 1 + pedal_report_descriptor()[26],
        _ => 1 + modern_report_descriptor()[17] + 256 * modern_report_descriptor()[18],
    }
}

/// Pressing a released button and releasing it again leaves every button as
/// it was, and the change is recorded.
pub proof fn law_press_then_release(v: ButtonStateView, button: u8)
    requires
        v.pressed.len() == MAX_BUTTONS,
        button < MAX_BUTTONS,
        !v.pressed[button as int],
    ensures
        release_view(press_view(v, button), button).pressed == v.pressed,
        release_view(press_view(v, button), button).num_buttons == v.num_buttons,
        release_view(press_view(v, button), button).changed,
{
    assert(release_view(press_view(v, button), button).pressed =~= v.pressed);
}

/// Pressing a pressed button, or releasing a released one, changes nothing.
pub proof fn law_press_release_idempotent(v: ButtonStateView, button: u8)
    requires
        v.pressed.len() == MAX_BUTTONS,
    ensures
        press_view(press_view(v, button), button) == press_view(v, button),
        release_view(release_view(v, button), button) == release_view(v, button),
{
    if button < MAX_BUTTONS {
        assert(press_view(press_view(v, button), button).pressed =~= press_view(v, button).pressed);
        assert(release_view(release_view(v, button), button).pressed =~= release_view(v, button).pressed);
    }
}

/// A pressed button reads back as pressed and a released one as released;
/// the other buttons read as before.
pub proof fn law_state_reads_back(v: ButtonStateView, button: u8, other: u8)
    requires
        v.pressed.len() == MAX_BUTTONS,
        other != button,
    ensures
        button < MAX_BUTTONS ==> is_pressed_view(press_view(v, button), button),
        !is_pressed_view(release_view(v, button), button),
        is_pressed_view(press_view(v, button), other) == is_pressed_view(v, other),
        is_pressed_view(release_view(v, button), other) == is_pressed_view(v, other),
{
}

/// Every input report has exactly the size that the model's HID report
/// descriptor declares for input report 1.
pub proof fn law_input_report_matches_descriptor(pressed: Seq<bool>, num_buttons: u8, model: StreamDeckModel)
    ensures
        input_report_spec(pressed, num_buttons, model).len() == declared_input_report_size(model),
        mini_report_descriptor()[21] == 0x95 && mini_report_descriptor()[23] == 0x85 && mini_report_descriptor()[24] == 0x01,
        pedal_report_descriptor()[25] == 0x95 && pedal_report_descriptor()[27] == 0x85 && pedal_report_descriptor()[28] == 0x01,
        modern_report_descriptor()[16] == 0x96 && modern_report_descriptor()[19] == 0x85 && modern_report_descriptor()[20] == 0x01,
{
}

/// In every format, the report carries each button's state: byte 1 + i
/// (Mini), 4 + i (MK.2/XL/+/Neo, and the Pedal's three pedals) is 1 exactly
/// when button i is pressed.
pub proof fn law_input_report_carries_buttons(pressed: Seq<bool>, num_buttons: u8, model: StreamDeckModel, i: int)
    requires
        0 <= i < num_buttons,
        num_buttons <= MAX_BUTTONS,
    ensures
        model == StreamDeckModel::Mini && i < 16 ==> input_report_spec(pressed, num_buttons, model)[1 + i] == state_byte(pressed[i]),
        model == StreamDeckModel::Pedal && i < 3 ==> input_report_spec(pressed, num_buttons, model)[4 + i] == state_byte(pressed[i]),
        model != StreamDeckModel::Mini && model != StreamDeckModel::Pedal
            ==> input_report_spec(pressed, num_buttons, model)[4 + i] == state_byte(pressed[i]),
{
}

} // verus!
