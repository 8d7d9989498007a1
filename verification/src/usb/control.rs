//! Answers to the USB control requests that the host sends to the HID
//! interface, and the classification of endpoint errors.

use vstd::prelude::*;
use vstd::string::StringSliceAdditionalSpecFns;
use crate::bytes::{zeroed, zeros};
use crate::usb::descriptors::StreamDeckModel;

verus! {

/// HID class request GET_REPORT.
pub const HID_REQ_GET_REPORT: u8 = 0x01;
/// HID class request GET_IDLE.
pub const HID_REQ_GET_IDLE: u8 = 0x02;
/// HID class request GET_PROTOCOL.
pub const HID_REQ_GET_PROTOCOL: u8 = 0x03;
/// HID class request SET_REPORT.
pub const HID_REQ_SET_REPORT: u8 = 0x09;
/// HID class request SET_IDLE.
pub const HID_REQ_SET_IDLE: u8 = 0x0A;
/// HID class request SET_PROTOCOL.
pub const HID_REQ_SET_PROTOCOL: u8 = 0x0B;
/// Report type "feature" (high byte of wValue).
pub const HID_REPORT_TYPE_FEATURE: u8 = 3;
/// Request type bits of a class request.
pub const USB_TYPE_CLASS: u8 = 0x20;
/// Recipient bits of a request to an interface.
pub const USB_RECIP_INTERFACE: u8 = 0x01;
/// Descriptor type of an HID report descriptor.
pub const HID_DESCRIPTOR_TYPE_REPORT: u8 = 0x22;

/// Fields of a control request's setup packet.
#[derive(Debug, Clone, Copy)]
pub struct ControlRequest {
    pub request_type: u8,
    pub request: u8,
    pub value: u16,
    pub index: u16,
    pub length: u16,
}

/// What to answer to a device-to-host control request.
#[derive(Debug)]
pub enum GetReply {
    /// Send these bytes.
    Data(Vec<u8>),
    /// Halt the endpoint (the request is answered with a stall on purpose).
    Halt,
    /// The request is not handled; it will stall.
    Unhandled,
}

/// What to do with a host-to-device control request.
#[derive(Debug, Clone, Copy, PartialEq, Eq, Structural)]
pub enum SetAction {
    /// SET_REPORT: read the report data, then accept.
    ReadReport { report_type: u8, report_id: u8 },
    /// SET_IDLE / SET_PROTOCOL: accept, draining the data stage if there is one.
    Accept { drain: bool },
    /// Not handled; it will stall.
    Unhandled,
}

/// How an endpoint error is treated.
#[derive(Debug, Clone, Copy, PartialEq, Eq, Structural)]
pub enum EndpointErrorKind {
    /// Level 2 halted (errno 51) or a broken pipe: the host is gone for now.
    Disconnected,
    /// EAGAIN (errno 11): no data yet.
    WouldBlock,
    /// Anything else.
    Other,
}

/// Whether the request is a class request addressed to an interface.
pub open spec fn is_class_interface(request_type: u8) -> bool {
    (request_type & 0x60) == USB_TYPE_CLASS && (request_type & 0x1F) == USB_RECIP_INTERFACE
}

/// `data` padded with zeros up to `len` bytes (never cut).
pub open spec fn pad_to(data: Seq<u8>, len: nat) -> Seq<u8> {
    if data.len() < len { data + zeros((len - data.len()) as nat) } else { data }
}

/// Abstract answer to a device-to-host request.
pub enum GetReplyView {
    Data(Seq<u8>),
    Halt,
    Unhandled,
}

/// The answer to a device-to-host request of a device of `model` with serial
/// bytes `serial`: feature reports (padded to the requested length, zeros for
/// unknown ids), idle rate 0, report protocol 1, and the HID report descriptor.
pub open spec fn get_reply_spec(model: StreamDeckModel, serial: Seq<u8>, c: ControlRequest) -> GetReplyView {
    let report_type = (c.value / 256) as u8;
    let report_id = (c.value % 256) as u8;
    if is_class_interface(c.request_type) && c.request == HID_REQ_GET_REPORT {
        if report_type == HID_REPORT_TYPE_FEATURE {
            match model.feature_report_spec(report_id, serial) {
                Some(d) => GetReplyView::Data(pad_to(d, c.length as nat)),
                None => GetReplyView::Data(zeros(c.length as nat)),
            }
        } else {
            GetReplyView::Halt
        }
    } else if is_class_interface(c.request_type) && c.request == HID_REQ_GET_IDLE {
        GetReplyView::Data(seq![0u8])
    } else if is_class_interface(c.request_type) && c.request == HID_REQ_GET_PROTOCOL {
        GetReplyView::Data(seq![1u8])
    } else if c.request_type == 0x81 && c.request == 0x06 && (c.value / 256) as u8 == HID_DESCRIPTOR_TYPE_REPORT {
        GetReplyView::Data(model.report_descriptor_spec())
    } else {
        GetReplyView::Unhandled
    }
}

/// The action for a host-to-device request.
pub open spec fn set_action_spec(c: ControlRequest) -> SetAction {
    if is_class_interface(c.request_type) && c.request == HID_REQ_SET_REPORT {
        SetAction::ReadReport { report_type: (c.value / 256) as u8, report_id: (c.value % 256) as u8 }
    } else if is_class_interface(c.request_type) && (c.request == HID_REQ_SET_IDLE || c.request == HID_REQ_SET_PROTOCOL) {
        SetAction::Accept { drain: c.length > 0 }
    } else {
        SetAction::Unhandled
    }
}

impl GetReply {
    /// Abstract view of the answer.
    pub open spec fn view_reply(&self) -> GetReplyView {
        match self {
            GetReply::Data(d) => GetReplyView::Data(d@),
            GetReply::Halt => GetReplyView::Halt,
            GetReply::Unhandled => GetReplyView::Unhandled,
        }
    }
}

fn class_interface(request_type: u8) -> (r: bool)
    ensures
        r == is_class_interface(request_type),
{
    (request_type & 0x60) == USB_TYPE_CLASS && (request_type & 0x1F) == USB_RECIP_INTERFACE
}

/// Pads `data` with zeros up to `len` bytes.
fn pad(data: &mut Vec<u8>, len: usize)
    ensures
        final(data)@ == pad_to(old(data)@, len as nat),
{
    if data.len() < len {
        let ghost d0 = data@;
        while data.len() < len
            invariant
                d0.len() <= data@.len() <= len,
                data@ == d0 + zeros((data@.len() - d0.len()) as nat),
            decreases len - data@.len(),
        {
            data.push(0);
            assert(data@ =~= d0 + zeros((data@.len() - d0.len()) as nat));
        }
    }
}

/// Answers a device-to-host control request of a device of `model` with serial `serial`.
pub fn get_request_reply(model: StreamDeckModel, serial: &str, ctrl: ControlRequest) -> (r: GetReply)
    ensures
        r.view_reply() == get_reply_spec(model, serial.spec_bytes(), ctrl),
{
    let value = ctrl.value;
    let report_type: u8 = (value >> 8) as u8;
    let report_id: u8 = #[verifier::truncate] ((value & 0xFF) as u8);
    assert((value >> 8) as u8 == (value / 256) as u8) by (bit_vector);
    assert(#[verifier::truncate] ((value & 0xFF) as u8) == (value % 256) as u8) by (bit_vector);
    let length = ctrl.length as usize;
    if class_interface(ctrl.request_type) {
        if ctrl.request == HID_REQ_GET_REPORT {
            if report_type == HID_REPORT_TYPE_FEATURE {
                match model.get_feature_report(report_id, serial) {
                    Some(data) => {
                        let mut data = data;
                        pad(&mut data, length);
                        return GetReply::Data(data);
                    },
                    None => {
                        return GetReply::Data(zeroed(length));
                    },
                }
            }
            return GetReply::Halt;
        } else if ctrl.request == HID_REQ_GET_IDLE {
            let v = vec![0u8];
            assert(v@ =~= seq![0u8]);
            return GetReply::Data(v);
        } else if ctrl.request == HID_REQ_GET_PROTOCOL {
            let v = vec![1u8];
            assert(v@ =~= seq![1u8]);
            return GetReply::Data(v);
        }
    }
    if ctrl.request_type == 0x81 && ctrl.request == 0x06 {
        if report_type == HID_DESCRIPTOR_TYPE_REPORT {
            return GetReply::Data(model.hid_config().report_descriptor);
        }
    }
    GetReply::Unhandled
}

/// Decides what to do with a host-to-device control request.
pub fn set_request_action(ctrl: ControlRequest) -> (r: SetAction)
    ensures
        r == set_action_spec(ctrl),
{
    let value = ctrl.value;
    assert((value >> 8) as u8 == (value / 256) as u8) by (bit_vector);
    assert(#[verifier::truncate] ((value & 0xFF) as u8) == (value % 256) as u8) by (bit_vector);
    if class_interface(ctrl.request_type) {
        if ctrl.request == HID_REQ_SET_REPORT {
            return SetAction::ReadReport {
                report_type: (value >> 8) as u8,
                report_id: #[verifier::truncate] ((value & 0xFF) as u8),
            };
        } else if ctrl.request == HID_REQ_SET_IDLE || ctrl.request == HID_REQ_SET_PROTOCOL {
            return SetAction::Accept { drain: ctrl.length > 0 };
        }
    }
    SetAction::Unhandled
}

/// Classifies an endpoint error by its OS error number and whether it is a
/// broken pipe.
pub fn classify_endpoint_error(os_error: Option<i32>, broken_pipe: bool) -> (r: EndpointErrorKind)
    ensures
        r == (if os_error == Some(51i32) || broken_pipe {
            EndpointErrorKind::Disconnected
        } else if os_error == Some(11i32) {
            EndpointErrorKind::WouldBlock
        } else {
            EndpointErrorKind::Other
        }),
{
    match os_error {
        Some(51) => EndpointErrorKind::Disconnected,
        _ => if broken_pipe {
            EndpointErrorKind::Disconnected
        } else {
            match os_error {
                Some(11) => EndpointErrorKind::WouldBlock,
                _ => EndpointErrorKind::Other,
            }
        },
    }
}

/// What polling the gadget for its next event gave.
#[derive(Debug, Clone, Copy, PartialEq, Eq, Structural)]
pub enum EventPoll {
    /// No event was waiting.
    Idle,
    /// Polling failed with an error of this kind.
    Failed(EndpointErrorKind),
    /// The gadget was unbound.
    Unbound,
    /// Any other event.
    Other,
}

/// The event loop's next step.
#[derive(Debug, Clone, Copy, PartialEq, Eq, Structural)]
pub enum LoopStep {
    /// Leave the loop normally.
    Stop,
    /// Sleep this many milliseconds, then poll again.
    Sleep(u64),
    /// Leave the loop with the polling error.
    Fail,
    /// Handle the event, then poll again.
    Handle,
}

/// The control event loop's step after a poll: an idle poll sleeps 50 ms; a
/// disconnected endpoint waits 500 ms for the host, or stops when shutdown was
/// requested meanwhile; any other polling error ends the loop with that error;
/// an unbind stops the loop; every other event is handled.
pub fn next_event_step(poll: EventPoll, running: bool) -> (r: LoopStep)
    ensures
        r == match poll {
            EventPoll::Idle => LoopStep::Sleep(50),
            EventPoll::Failed(EndpointErrorKind::Disconnected) => if running { LoopStep::Sleep(500) } else { LoopStep::Stop },
            EventPoll::Failed(_) => LoopStep::Fail,
            EventPoll::Unbound => LoopStep::Stop,
            EventPoll::Other => LoopStep::Handle,
        },
{
    match poll {
        EventPoll::Idle => LoopStep::Sleep(50),
        EventPoll::Failed(EndpointErrorKind::Disconnected) => if running { LoopStep::Sleep(500) } else { LoopStep::Stop },
        EventPoll::Failed(_) => LoopStep::Fail,
        EventPoll::Unbound => LoopStep::Stop,
        EventPoll::Other => LoopStep::Handle,
    }
}

/// A standard GET_DESCRIPTOR request for the HID report descriptor (request
/// type 0x81, request 0x06, descriptor type 0x22 in the value's high byte) is
/// answered with the report descriptor of the device's own model, whatever
/// the requested length: the Mini's for a Mini, the Pedal's for a Pedal, and
/// the shared one of the MK.2, XL, + and Neo for those.
pub proof fn law_report_descriptor_of_own_model(model: StreamDeckModel, serial: Seq<u8>, c: ControlRequest)
    requires
        c.request_type == 0x81,
        c.request == 0x06,
        c.value / 256 == 0x22,
    ensures
        get_reply_spec(model, serial, c) == GetReplyView::Data(model.report_descriptor_spec()),
        model == StreamDeckModel::Mini ==> get_reply_spec(model, serial, c)
            == GetReplyView::Data(crate::usb::descriptors::mini_report_descriptor()),
        model == StreamDeckModel::Pedal ==> get_reply_spec(model, serial, c)
            == GetReplyView::Data(crate::usb::descriptors::pedal_report_descriptor()),
        model != StreamDeckModel::Mini && model != StreamDeckModel::Pedal ==> get_reply_spec(model, serial, c)
            == GetReplyView::Data(crate::usb::descriptors::modern_report_descriptor()),
{
    assert((0x81u8 & 0x60) == 0) by (bit_vector);
}

/// Class requests to the interface (request type 0xA1) for the idle rate
/// and the protocol are answered with one byte each: idle rate 0 (report
/// only on change) and protocol 1 (report protocol); a GET_REPORT for any
/// report type other than feature (3) is halted.
pub proof fn law_idle_protocol_and_halt(model: StreamDeckModel, serial: Seq<u8>, c: ControlRequest)
    requires
        c.request_type == 0xA1,
    ensures
        c.request == 0x02 ==> get_reply_spec(model, serial, c) == GetReplyView::Data(seq![0u8]),
        c.request == 0x03 ==> get_reply_spec(model, serial, c) == GetReplyView::Data(seq![1u8]),
        c.request == 0x01 && c.value / 256 != 3 ==> get_reply_spec(model, serial, c) == GetReplyView::Halt,
{
    assert((0xA1u8 & 0x60) == 0x20 && (0xA1u8 & 0x1F) == 0x01) by (bit_vector);
}

/// A GET_REPORT request for a feature report is always answered with data,
/// never shorter than requested, that begins with the model's feature report
/// for that id (or is all zeros for an id the model does not know).
pub proof fn law_feature_request_answered(model: StreamDeckModel, serial: Seq<u8>, c: ControlRequest)
    requires
        is_class_interface(c.request_type),
        c.request == HID_REQ_GET_REPORT,
        (c.value / 256) as u8 == HID_REPORT_TYPE_FEATURE,
    ensures
        get_reply_spec(model, serial, c) matches GetReplyView::Data(d) && d.len() >= c.length && (
            match model.feature_report_spec((c.value % 256) as u8, serial) {
                Some(r) => d.take(r.len() as int) == r,
                None => d == zeros(c.length as nat),
            }),
{
    match model.feature_report_spec((c.value % 256) as u8, serial) {
        Some(r) => {
            assert(pad_to(r, c.length as nat).take(r.len() as int) =~= r);
        },
        None => {},
    }
}

} // verus!
