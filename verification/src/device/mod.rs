//! Device state: buttons, key images, Stream Deck + and Neo inputs.

pub mod buttons;
pub mod image;
pub mod image_laws;
pub mod neo;
pub mod plus;

pub use buttons::ButtonState;
pub use image::{
    ButtonImage, ImageCommand, ImageError, ImageEvent, ImageEventReceiver, ImagePacket, ImagePacketHeader,
    ImageProtocol, ImageStats, ImageStore,
};
pub use neo::{NeoInputState, NeoTouchPoint, RgbColor};
pub use plus::{KnobDirection, KnobEvent, KnobIndex, PlusInputState, TouchEvent, TouchEventType};
