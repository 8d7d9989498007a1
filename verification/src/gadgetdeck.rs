//! Configuration of an emulated Stream Deck and the errors of bringing one up.

use vstd::prelude::*;
use crate::device::buttons::ButtonState;
use crate::device::image::{zero_stats, BuilderView, ImageStore, ImageView, Subscription};
use crate::device::plus::{idle_plus_view, PlusInputState};
use crate::usb::StreamDeckModel;

verus! {

#[verifier::external_type_specification]
#[verifier::external_body]
pub struct ExIoError(std::io::Error);

/// Errors of setting up or running the USB gadget.
#[derive(Debug)]
pub enum GadgetDeckError {
    /// No USB device controller was found.
    NoUdc(std::io::Error),
    /// The gadget could not be bound to the controller.
    BindFailed(std::io::Error),
    /// Already started.
    AlreadyStarted,
    /// Not started yet.
    NotStarted,
}

/// Configuration of an emulated device: model and serial number.
pub struct GadgetDeckConfig {
    /// The model to emulate.
    pub model: StreamDeckModel,
    /// The device serial number.
    pub serial: String,
}

impl GadgetDeckConfig {
    /// A configuration for `model` with serial `serial`.
    pub fn new(model: StreamDeckModel, serial: &str) -> (r: Self)
        ensures
            r.model == model,
            r.serial@ == serial@,
    {
        GadgetDeckConfig { model, serial: serial.to_owned() }
    }

    /// A Stream Deck Mini configuration.
    pub fn mini(serial: &str) -> (r: Self)
        ensures
            r.model == StreamDeckModel::Mini,
            r.serial@ == serial@,
    {
        Self::new(StreamDeckModel::Mini, serial)
    }

    /// A Stream Deck Pedal configuration.
    pub fn pedal(serial: &str) -> (r: Self)
        ensures
            r.model == StreamDeckModel::Pedal,
            r.serial@ == serial@,
    {
        Self::new(StreamDeckModel::Pedal, serial)
    }

    /// A Stream Deck + configuration.
    pub fn plus(serial: &str) -> (r: Self)
        ensures
            r.model == StreamDeckModel::Plus,
            r.serial@ == serial@,
    {
        Self::new(StreamDeckModel::Plus, serial)
    }
}

/// Whether the gadget can start: it is refused (as already started) when its
/// threads run or its HID function was handed out before.
pub fn check_start(started: bool, hid_available: bool) -> (r: Result<(), GadgetDeckError>)
    ensures
        r is Ok <==> (!started && hid_available),
        r matches Err(e) ==> e is AlreadyStarted,
{
    if started || !hid_available {
        Err(GadgetDeckError::AlreadyStarted)
    } else {
        Ok(())
    }
}

/// The state an emulated device starts with: its buttons, the touchscreen and
/// knob state of a Stream Deck + (none for the other models), and the store
/// of key images.
pub struct DeviceState {
    /// Button state.
    pub buttons: ButtonState,
    /// Touchscreen and knob state; only a Stream Deck + has one.
    pub plus: Option<PlusInputState>,
    /// Key images received from the host.
    pub images: ImageStore,
}

impl DeviceState {
    /// The initial state of a device of `model`: all buttons released,
    /// nothing pending on the + controls, no images.
    pub fn new(model: StreamDeckModel) -> (r: Self)
        ensures
            r.buttons@.num_buttons == model.num_buttons_spec(),
            r.buttons@.pressed == Seq::new(crate::device::buttons::MAX_BUTTONS as nat, |i: int| false),
            !r.buttons@.changed,
            r.plus is Some <==> model == StreamDeckModel::Plus,
            r.plus matches Some(p) ==> p@ == idle_plus_view(),
            r.images@.images == Map::<u8, ImageView>::empty(),
            r.images@.builders == Map::<u8, BuilderView>::empty(),
            r.images@.stats == zero_stats(),
            r.images.subscriptions() == Seq::<Subscription>::empty(),
    {
        let plus = match model {
            StreamDeckModel::Plus => Some(PlusInputState::new()),
            _ => None,
        };
        DeviceState { buttons: ButtonState::new(model), plus, images: ImageStore::new() }
    }
}

} // verus!
