//! Stream Deck emulation core: device models and their USB HID descriptors,
//! button/knob/touch state, input report encoding, and the reassembly of
//! key images that the host sends as multi-packet output reports.

pub mod bytes;
pub mod device;
pub mod display;
pub mod gadgetdeck;
pub mod server;
pub mod usb;

pub use device::{
    ButtonImage, ButtonState, ImageError, ImageEvent, ImageEventReceiver, ImagePacket, ImagePacketHeader, ImageStats,
    ImageStore,
};
pub use device::{KnobDirection, KnobEvent, KnobIndex, PlusInputState, TouchEvent, TouchEventType};
pub use device::{NeoInputState, NeoTouchPoint, RgbColor};
pub use gadgetdeck::{GadgetDeckConfig, GadgetDeckError};
pub use usb::StreamDeckModel;
