//! What the report loops of the gadget send and do: the input reports that a
//! Stream Deck + has pending, and the handling of output reports from the host.

use vstd::prelude::*;
use crate::device::buttons::{input_report_spec, ButtonState, ButtonStateView};
use crate::device::image::{offer_all, offered_unless_closed, process_spec, sub_of, ImageError, ImageStore};
use crate::device::plus::{
    knob_press_report_spec, knob_report_header, law_turn_byte_roundtrip, touch_report_spec, turn_byte, KnobIndex, PlusInputState,
    PlusInputView, MAX_KNOBS,
};
use crate::usb::control::EndpointErrorKind;
use crate::usb::descriptors::{make_usb_class, usb_class_of, StreamDeckModel};
use usb_gadget::Class;

verus! {

/// Interval of the keepalive input reports, in ms.
pub const KEEPALIVE_INTERVAL_MS: u64 = 100;

/// Turn reports for the first `n` knobs, in knob order, for the knobs whose
/// accumulated rotation is not zero.
pub open spec fn turn_reports(rotation: Seq<i8>, n: nat) -> Seq<Seq<u8>>
    decreases n,
{
    if n == 0 {
        Seq::empty()
    } else {
        let earlier = turn_reports(rotation, (n - 1) as nat);
        let k = n - 1;
        if rotation[k] != 0 {
            earlier.push(knob_report_header(true).update(5 + k, turn_byte(rotation[k])))
        } else {
            earlier
        }
    }
}

/// The reports a Stream Deck + has pending, in the order they are sent: the
/// touch event, the knob turns (knob A first), the knob press state if a knob
/// changed, and the button state if a button changed.
pub open spec fn plus_reports_spec(b: ButtonStateView, p: PlusInputView) -> Seq<Seq<u8>> {
    let touch = match p.touch {
        Some(e) => seq![touch_report_spec(e)],
        None => Seq::empty(),
    };
    let press = if p.knob_changed { seq![knob_press_report_spec(p.knob_pressed)] } else { Seq::empty() };
    let buttons = if b.changed {
        seq![input_report_spec(b.pressed, b.num_buttons, StreamDeckModel::Plus)]
    } else {
        Seq::empty()
    };
    touch + turn_reports(p.knob_rotation, MAX_KNOBS as nat) + press + buttons
}

/// Views of a list of reports.
pub open spec fn report_views(v: Seq<Vec<u8>>) -> Seq<Seq<u8>> {
    v.map_values(|r: Vec<u8>| r@)
}

/// Takes every pending event of a Stream Deck + and returns the input reports
/// to send for them, in order. Afterwards nothing is pending.
pub fn collect_plus_reports(buttons: &mut ButtonState, plus: &mut PlusInputState) -> (r: Vec<Vec<u8>>)
    ensures
        report_views(r@) == plus_reports_spec(old(buttons)@, old(plus)@),
        final(plus)@ == (PlusInputView {
            touch: None,
            knob_rotation: Seq::new(MAX_KNOBS as nat, |i: int| 0i8),
            knob_changed: false,
            ..old(plus)@
        }),
        final(buttons)@ == (ButtonStateView { changed: false, ..old(buttons)@ }),
{
    proof { plus.lemma_knob_slots(); }
    let mut reports: Vec<Vec<u8>> = Vec::new();
    if let Some(event) = plus.take_touch_event() {
        reports.push(event.build_input_report());
    }
    let ghost p0 = old(plus)@;
    let ghost r0 = report_views(reports@);
    assert(r0 =~= match p0.touch {
        Some(e) => seq![touch_report_spec(e)],
        None => Seq::<Seq<u8>>::empty(),
    });
    let mut i: usize = 0;
    while i < MAX_KNOBS
        invariant
            i <= MAX_KNOBS,
            p0.knob_rotation.len() == MAX_KNOBS,
            plus@.touch is None,
            plus@.knob_pressed == p0.knob_pressed,
            plus@.knob_changed == p0.knob_changed,
            plus@.knob_rotation.len() == MAX_KNOBS,
            forall|k: int| 0 <= k < i ==> plus@.knob_rotation[k] == 0,
            forall|k: int| i <= k < MAX_KNOBS ==> plus@.knob_rotation[k] == p0.knob_rotation[k],
            report_views(reports@) == r0 + turn_reports(p0.knob_rotation, i as nat),
        decreases MAX_KNOBS - i,
    {
        proof { plus.lemma_knob_slots(); }
        let knob = KnobIndex::from(i as u8);
        assert(knob.index_spec() == i);
        let ghost before = reports@;
        let rotation = plus.take_knob_rotation(knob);
        assert(rotation == p0.knob_rotation[i as int]);
        if rotation != 0 {
            let report = plus.build_knob_turn_report(knob, rotation);
            reports.push(report);
            assert(report_views(reports@) =~= report_views(before).push(report@));
        }
        assert(turn_reports(p0.knob_rotation, (i + 1) as nat) == (if p0.knob_rotation[i as int] != 0 {
            turn_reports(p0.knob_rotation, i as nat).push(
                knob_report_header(true).update(5 + i, turn_byte(p0.knob_rotation[i as int])),
            )
        } else {
            turn_reports(p0.knob_rotation, i as nat)
        }));
        i = i + 1;
        assert(report_views(reports@) =~= r0 + turn_reports(p0.knob_rotation, i as nat));
    }
    let ghost r1 = report_views(reports@);
    if plus.take_knob_changed() {
        reports.push(plus.build_knob_press_report());
    }
    let ghost r2 = report_views(reports@);
    assert(r2 =~= r1 + (if p0.knob_changed { seq![knob_press_report_spec(p0.knob_pressed)] } else { Seq::empty() }));
    let ghost b0 = buttons@;
    if buttons.take_changed() {
        reports.push(buttons.build_input_report(StreamDeckModel::Plus));
    }
    assert(report_views(reports@) =~= plus_reports_spec(old(buttons)@, p0));
    assert(plus@.knob_rotation =~= Seq::new(MAX_KNOBS as nat, |i: int| 0i8));
    reports
}

/// Whether a keepalive report is due: nothing was sent in this round and the
/// last keepalive is at least the keepalive interval ago.
pub fn keepalive_due(sent_event: bool, elapsed_ms: u64) -> (r: bool)
    ensures
        r == (!sent_event && elapsed_ms >= KEEPALIVE_INTERVAL_MS),
{
    !sent_event && elapsed_ms >= KEEPALIVE_INTERVAL_MS
}

/// Pause, in ms, after a failed read of the output endpoint: 500 while the
/// host is gone, 10 when no data is there yet, 100 after another error.
pub fn receive_error_delay_ms(kind: EndpointErrorKind) -> (r: u64)
    ensures
        r == match kind {
            EndpointErrorKind::Disconnected => 500u64,
            EndpointErrorKind::WouldBlock => 10u64,
            EndpointErrorKind::Other => 100u64,
        },
{
    match kind {
        EndpointErrorKind::Disconnected => 500,
        EndpointErrorKind::WouldBlock => 10,
        EndpointErrorKind::Other => 100,
    }
}

/// Pause, in ms, after a failed write of an input report: 500 while the host
/// is gone; after any other error 100 if the loop pauses on errors (the
/// keepalive of the plain sender), else none.
pub fn send_error_delay_ms(kind: EndpointErrorKind, pause_on_other: bool) -> (r: u64)
    ensures
        r == (if kind == EndpointErrorKind::Disconnected {
            500u64
        } else if pause_on_other {
            100u64
        } else {
            0u64
        }),
{
    match kind {
        EndpointErrorKind::Disconnected => 500,
        _ => if pause_on_other {
            100
        } else {
            0
        },
    }
}

/// What an output report from the host was.
#[derive(Debug, Clone, Copy, PartialEq, Eq)]
pub enum OutputOutcome {
    /// An empty report; ignored.
    Empty,
    /// An image report (id 0x02) and what its processing gave.
    Image(Result<Option<u8>, ImageError>),
    /// A report with another id; ignored.
    Other(u8),
}

/// Handles an output report: image reports go to the image store, the rest
/// is ignored.
pub fn handle_output_report(store: &mut ImageStore, data: &[u8]) -> (r: OutputOutcome)
    ensures
        data@.len() == 0 ==> r == OutputOutcome::Empty && final(store)@ == old(store)@,
        data@.len() > 0 && data@[0] == 0x02 ==> r == OutputOutcome::Image(process_spec(old(store)@, data@).1)
            && final(store)@ == process_spec(old(store)@, data@).0,
        data@.len() > 0 && data@[0] != 0x02 ==> r == OutputOutcome::Other(data@[0]) && final(store)@ == old(store)@,
        data@.len() > 0 && data@[0] == 0x02 ==> match process_spec(old(store)@, data@).1 {
            Ok(Some(k)) => sub_of(final(store).subscriptions(), offer_all(old(store).subscriptions(), (k, final(store)@.images[k])))
                && offered_unless_closed(final(store).subscriptions(), old(store).subscriptions(), (k, final(store)@.images[k])),
            _ => final(store).subscriptions() == old(store).subscriptions(),
        },
        !(data@.len() > 0 && data@[0] == 0x02) ==> final(store).subscriptions() == old(store).subscriptions(),
{
    if data.len() == 0 {
        return OutputOutcome::Empty;
    }
    let report_id = data[0];
    if report_id == 0x02 {
        OutputOutcome::Image(store.process_packet(data))
    } else {
        OutputOutcome::Other(report_id)
    }
}

/// HID class-specific descriptor body (after bLength and bDescriptorType):
/// bcdHID 1.11, country 0, one descriptor, of type report, with the report
/// descriptor's length (u16 LE).
pub open spec fn hid_descriptor_spec(report_desc_len: u16) -> Seq<u8> {
    seq![0x11u8, 0x01, 0x00, 0x01, 0x22, crate::bytes::lo(report_desc_len), crate::bytes::hi(report_desc_len)]
}

/// Builds the HID class-specific descriptor body for a report descriptor of
/// `report_desc_len` bytes.
pub fn hid_descriptor_data(report_desc_len: u16) -> (r: Vec<u8>)
    ensures
        r@ == hid_descriptor_spec(report_desc_len),
{
    let l: u8 = #[verifier::truncate] ((report_desc_len & 0xFF) as u8);
    let h: u8 = #[verifier::truncate] (((report_desc_len >> 8) & 0xFF) as u8);
    assert(#[verifier::truncate] ((report_desc_len & 0xFF) as u8) == crate::bytes::lo(report_desc_len)) by (bit_vector);
    assert(#[verifier::truncate] (((report_desc_len >> 8) & 0xFF) as u8) == crate::bytes::hi(report_desc_len)) by (bit_vector);
    let v = vec![0x11u8, 0x01, 0x00, 0x01, 0x22, l, h];
    assert(v@ =~= hid_descriptor_spec(report_desc_len));
    v
}

/// The interface class of the HID function of `model`: class 0x03 (HID) with
/// the model's HID subclass and protocol.
pub fn hid_interface_class(model: StreamDeckModel) -> (r: Class)
    ensures
        r == usb_class_of(0x03, 0, 0),
{
    let config = model.hid_config();
    make_usb_class(0x03, config.sub_class, config.protocol)
}

/// A knob turn report: 512 bytes, report id 0x01, knob event 0x03, turn flag set.
pub open spec fn is_turn_report(r: Seq<u8>) -> bool {
    r.len() == 512 && r[0] == 0x01 && r[1] == 0x03 && r[4] == 0x01
}

/// How many of `reports` are knob turn reports.
pub open spec fn turn_report_count(reports: Seq<Seq<u8>>) -> nat
    decreases reports.len(),
{
    if reports.len() == 0 {
        0
    } else {
        turn_report_count(reports.drop_last()) + if is_turn_report(reports.last()) { 1nat } else { 0nat }
    }
}

/// How many of the first `n` knobs have a rotation other than zero.
pub open spec fn turning_knobs(rotation: Seq<i8>, n: nat) -> nat
    decreases n,
{
    if n == 0 {
        0
    } else {
        turning_knobs(rotation, (n - 1) as nat) + if rotation[n - 1] != 0 { 1nat } else { 0nat }
    }
}

proof fn lemma_turn_report_count_add(a: Seq<Seq<u8>>, b: Seq<Seq<u8>>)
    ensures
        turn_report_count(a + b) == turn_report_count(a) + turn_report_count(b),
    decreases b.len(),
{
    if b.len() == 0 {
        assert(a + b =~= a);
    } else {
        assert((a + b).drop_last() =~= a + b.drop_last());
        lemma_turn_report_count_add(a, b.drop_last());
    }
}

proof fn lemma_turn_reports(rotation: Seq<i8>, n: nat)
    requires
        n <= 4,
        rotation.len() == 4,
    ensures
        turn_report_count(turn_reports(rotation, n)) == turning_knobs(rotation, n),
        forall|k: int| 0 <= k < n && rotation[k] != 0 ==> exists|j: int| 0 <= j < turn_reports(rotation, n).len()
            && #[trigger] turn_reports(rotation, n)[j] == knob_report_header(true).update(5 + k, turn_byte(rotation[k])),
    decreases n,
{
    if n > 0 {
        lemma_turn_reports(rotation, (n - 1) as nat);
        let earlier = turn_reports(rotation, (n - 1) as nat);
        let k = n - 1;
        let r = knob_report_header(true).update(5 + k, turn_byte(rotation[k]));
        if rotation[k] != 0 {
            assert(turn_reports(rotation, n).drop_last() =~= earlier);
            assert(is_turn_report(r));
            assert forall|q: int| 0 <= q < n && rotation[q] != 0 implies exists|j: int| 0 <= j < turn_reports(rotation, n).len()
                && #[trigger] turn_reports(rotation, n)[j] == knob_report_header(true).update(5 + q, turn_byte(rotation[q])) by {
                if q < k {
                    let j = choose|j: int| 0 <= j < earlier.len()
                        && #[trigger] earlier[j] == knob_report_header(true).update(5 + q, turn_byte(rotation[q]));
                    assert(turn_reports(rotation, n)[j] == earlier[j]);
                } else {
                    assert(turn_reports(rotation, n)[earlier.len() as int] == r);
                }
            }
        } else {
            assert(turn_reports(rotation, n) == earlier);
            assert forall|q: int| 0 <= q < n && rotation[q] != 0 implies exists|j: int| 0 <= j < turn_reports(rotation, n).len()
                && #[trigger] turn_reports(rotation, n)[j] == knob_report_header(true).update(5 + q, turn_byte(rotation[q])) by {
                let j = choose|j: int| 0 <= j < earlier.len()
                    && #[trigger] earlier[j] == knob_report_header(true).update(5 + q, turn_byte(rotation[q]));
                assert(turn_reports(rotation, n)[j] == earlier[j]);
            }
        }
    }
}

/// Every knob that was turned reaches the host: for each of the four knobs
/// whose accumulated rotation is not zero, the pending reports hold a turn
/// report whose byte for that knob reads back, as a signed byte, as the
/// rotation, with the other knobs' bytes zero; and there are exactly as many
/// turn reports as knobs that were turned.
pub proof fn law_every_turn_reported(b: ButtonStateView, p: PlusInputView)
    requires
        p.knob_rotation.len() == 4,
    ensures
        turn_report_count(plus_reports_spec(b, p)) == turning_knobs(p.knob_rotation, 4),
        forall|k: int| 0 <= k < 4 && p.knob_rotation[k] != 0 ==> exists|j: int| 0 <= j < plus_reports_spec(b, p).len() && {
            let r = #[trigger] plus_reports_spec(b, p)[j];
            &&& is_turn_report(r)
            &&& r[5 + k] as i8 == p.knob_rotation[k]
            &&& forall|m: int| 5 <= m < 9 && m != 5 + k ==> r[m] == 0
        },
{
    let touch = match p.touch {
        Some(e) => seq![touch_report_spec(e)],
        None => Seq::<Seq<u8>>::empty(),
    };
    let press = if p.knob_changed { seq![knob_press_report_spec(p.knob_pressed)] } else { Seq::<Seq<u8>>::empty() };
    let buttons = if b.changed {
        seq![input_report_spec(b.pressed, b.num_buttons, StreamDeckModel::Plus)]
    } else {
        Seq::<Seq<u8>>::empty()
    };
    let turns = turn_reports(p.knob_rotation, 4);
    lemma_turn_reports(p.knob_rotation, 4);
    assert(plus_reports_spec(b, p) == touch + turns + press + buttons);
    lemma_turn_report_count_add(touch, turns);
    lemma_turn_report_count_add(touch + turns, press);
    lemma_turn_report_count_add(touch + turns + press, buttons);
    reveal_with_fuel(turn_report_count, 2);
    assert(turn_report_count(touch) == 0) by {
        if touch.len() > 0 {
            assert(touch.drop_last() =~= Seq::<Seq<u8>>::empty());
        }
    }
    assert(turn_report_count(press) == 0) by {
        if press.len() > 0 {
            assert(press.drop_last() =~= Seq::<Seq<u8>>::empty());
            assert(knob_press_report_spec(p.knob_pressed)[4] == 0);
        }
    }
    assert(turn_report_count(buttons) == 0) by {
        if buttons.len() > 0 {
            assert(buttons.drop_last() =~= Seq::<Seq<u8>>::empty());
            assert(input_report_spec(b.pressed, b.num_buttons, StreamDeckModel::Plus)[1] == 0);
        }
    }
    assert forall|k: int| 0 <= k < 4 && p.knob_rotation[k] != 0 implies exists|j: int| 0 <= j < plus_reports_spec(b, p).len() && {
        let r = #[trigger] plus_reports_spec(b, p)[j];
        &&& is_turn_report(r)
        &&& r[5 + k] as i8 == p.knob_rotation[k]
        &&& forall|m: int| 5 <= m < 9 && m != 5 + k ==> r[m] == 0
    } by {
        let j = choose|j: int| 0 <= j < turns.len()
            && #[trigger] turns[j] == knob_report_header(true).update(5 + k, turn_byte(p.knob_rotation[k]));
        let r = turns[j];
        law_turn_byte_roundtrip(p.knob_rotation[k]);
        assert(plus_reports_spec(b, p)[touch.len() + j] == r);
        assert(is_turn_report(r));
        assert forall|m: int| 5 <= m < 9 && m != 5 + k implies r[m] == 0 by {}
    }
}

} // verus!
