//! Logic of the touchscreen display front end: image decoding and rotation,
//! touch gesture recognition, LCD compositing and the key grid layout.

pub mod bmp;
pub mod canvas;
pub mod layout;
pub mod panel;
pub mod pixels;
pub mod touch;
