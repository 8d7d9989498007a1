//! USB-facing logic: model descriptors and HID report handling.

pub mod control;
pub mod descriptors;
pub mod reports;

pub use descriptors::StreamDeckModel;
