//! USB descriptors and feature reports of the emulated Stream Deck models.

use vstd::prelude::*;
use crate::bytes::{splice, write_prefix, zeroed, zeros};
use vstd::string::StringSliceAdditionalSpecFns;
use usb_gadget::{Class, Id, Strings};

verus! {

/// USB vendor id of Elgato Systems GmbH.
pub const ELGATO_VENDOR_ID: u16 = 0x0fd9;

/// Stream Deck device models that can be emulated.
#[derive(Debug, Clone, Copy, PartialEq, Eq, Structural)]
pub enum StreamDeckModel {
    /// Stream Deck Mini (Module 6): 6 keys, 3x2 layout.
    Mini,
    /// Stream Deck Pedal: 3 foot pedals.
    Pedal,
    /// Stream Deck MK.2 (Module 15): 15 keys, 5x3 layout.
    Mk2,
    /// Stream Deck XL (Module 32): 32 keys, 8x4 layout.
    Xl,
    /// Stream Deck +: 8 keys (4x2), 4 knobs, touchscreen strip.
    Plus,
    /// Stream Deck Neo: 8 keys (4x2), 2 touch points, info bar LCD.
    Neo,
}

#[verifier::external_type_specification]
#[verifier::external_body]
pub struct ExId(Id);

#[verifier::external_type_specification]
#[verifier::external_body]
pub struct ExClass(Class);

#[verifier::external_type_specification]
#[verifier::external_body]
pub struct ExStrings(Strings);

/// The USB id that `usb_gadget::Id::new` builds from a vendor and a product id.
pub uninterp spec fn usb_id_of(vendor: u16, product: u16) -> Id;

/// The device class that `usb_gadget::Class::new` builds from its three codes.
pub uninterp spec fn usb_class_of(class: u8, sub_class: u8, protocol: u8) -> Class;

/// The string set that `usb_gadget::Strings::new` builds from manufacturer,
/// product and serial number.
pub uninterp spec fn usb_strings_of(manufacturer: Seq<char>, product: Seq<char>, serial: Seq<char>) -> Strings;

/// Calls `usb_gadget::Id::new`, which stores the two ids unchanged; the
/// result is claimed to be a function of the two ids.
#[verifier::external_body]
fn make_usb_id(vendor: u16, product: u16) -> (r: Id)
    ensures
        r == usb_id_of(vendor, product),
{
    Id::new(vendor, product)
}

/// Calls `usb_gadget::Class::new`, which stores the three codes unchanged;
/// the result is claimed to be a function of the three codes.
#[verifier::external_body]
pub(crate) fn make_usb_class(class: u8, sub_class: u8, protocol: u8) -> (r: Class)
    ensures
        r == usb_class_of(class, sub_class, protocol),
{
    Class::new(class, sub_class, protocol)
}

/// Calls `usb_gadget::Strings::new`, which copies the three strings; the
/// result is claimed to be a function of their characters.
#[verifier::external_body]
fn make_usb_strings(manufacturer: &str, product: &str, serial: &str) -> (r: Strings)
    ensures
        r == usb_strings_of(manufacturer@, product@, serial@),
{
    Strings::new(manufacturer, product, serial)
}

/// HID-specific configuration of a model.
pub struct StreamDeckHidConfig {
    /// HID protocol (0 = none).
    pub protocol: u8,
    /// HID subclass (0 = no subclass).
    pub sub_class: u8,
    /// Maximum packet size of the IN endpoint.
    pub in_max_packet_size: u16,
    /// Maximum packet size of the OUT endpoint.
    pub out_max_packet_size: u16,
    /// Endpoint polling interval in ms.
    pub interval: u8,
    /// HID report descriptor.
    pub report_descriptor: Vec<u8>,
    /// Report length.
    pub report_len: u8,
}

/// Configuration attributes of the USB configuration.
pub struct ConfigAttributes {
    /// Bus powered.
    pub bus_powered: bool,
    /// Remote wakeup capability.
    pub remote_wakeup: bool,
    /// Configuration value.
    pub config_value: u8,
    /// Number of interfaces.
    pub num_interfaces: u8,
}

/// HID report descriptor of the Stream Deck Mini (221 bytes, as dumped from a device).
pub open spec fn mini_report_descriptor() -> Seq<u8> {
    seq![
        0x05u8, 0x0C, 0x09, 0x01, 0xA1, 0x01, 0x09, 0x01, 0x05, 0x09, 0x19, 0x01,
        0x29, 0x10, 0x15, 0x00, 0x26, 0xFF, 0x00, 0x75, 0x08, 0x95, 0x10, 0x85,
        0x01, 0x81, 0x02, 0x0A, 0x00, 0xFF, 0x15, 0x00, 0x26, 0xFF, 0x00, 0x75,
        0x08, 0x96, 0xFF, 0x03, 0x85, 0x02, 0x91, 0x02, 0x0A, 0x00, 0xFF, 0x15,
        0x00, 0x26, 0xFF, 0x00, 0x75, 0x08, 0x95, 0x1F, 0x85, 0x03, 0xB1, 0x04,
        0x0A, 0x00, 0xFF, 0x15, 0x00, 0x26, 0xFF, 0x00, 0x75, 0x08, 0x95, 0x10,
        0x85, 0x04, 0xB1, 0x04, 0x0A, 0x00, 0xFF, 0x15, 0x00, 0x26, 0xFF, 0x00,
        0x75, 0x08, 0x95, 0x10, 0x85, 0x05, 0xB1, 0x04, 0x0A, 0x00, 0xFF, 0x15,
        0x00, 0x26, 0xFF, 0x00, 0x75, 0x08, 0x95, 0x10, 0x85, 0x07, 0xB1, 0x04,
        0x0A, 0x00, 0xFF, 0x15, 0x00, 0x26, 0xFF, 0x00, 0x75, 0x08, 0x95, 0x10,
        0x85, 0x0B, 0xB1, 0x04, 0x0A, 0x00, 0xFF, 0x15, 0x00, 0x26, 0xFF, 0x00,
        0x75, 0x08, 0x95, 0x10, 0x85, 0xA0, 0xB1, 0x04, 0x0A, 0x00, 0xFF, 0x15,
        0x00, 0x26, 0xFF, 0x00, 0x75, 0x08, 0x95, 0x10, 0x85, 0xA1, 0xB1, 0x04,
        0x0A, 0x00, 0xFF, 0x15, 0x00, 0x26, 0xFF, 0x00, 0x75, 0x08, 0x95, 0x10,
        0x85, 0xA2, 0xB1, 0x04, 0x0A, 0x00, 0xFF, 0x15, 0x00, 0x26, 0xFF, 0x00,
        0x75, 0x08, 0x95, 0x10, 0x85, 0xA3, 0xB1, 0x04, 0x0A, 0x00, 0xFF, 0x15,
        0x00, 0x26, 0xFF, 0x00, 0x75, 0x08, 0x95, 0x1F, 0x85, 0xA4, 0xB1, 0x04,
        0x0A, 0x00, 0xFF, 0x15, 0x00, 0x26, 0xFF, 0x00, 0x75, 0x08, 0x95, 0x1F,
        0x85, 0xA5, 0xB1, 0x04, 0xC0,
    ]
}

/// HID report descriptor of the Stream Deck Pedal.
pub open spec fn pedal_report_descriptor() -> Seq<u8> {
    seq![
        0x05u8, 0x0C, 0x09, 0x01, 0xA1, 0x01, 0x06, 0x00, 0xFF, 0x15, 0x00, 0x26,
        0xFF, 0x00, 0x75, 0x08, 0x96, 0xFF, 0x03, 0x85, 0x02, 0x09, 0x01, 0x91,
        0x02, 0x95, 0x07, 0x85, 0x01, 0x09, 0x01, 0x81, 0x02, 0x95, 0x1F, 0x85,
        0x03, 0x09, 0x01, 0xB1, 0x04, 0x95, 0x1F, 0x85, 0x06, 0x09, 0x01, 0xB1,
        0x04, 0x95, 0x1F, 0x85, 0x07, 0x09, 0x01, 0xB1, 0x04, 0x95, 0x1F, 0x85,
        0x05, 0x09, 0x01, 0xB1, 0x04, 0x95, 0x1F, 0x85, 0x04, 0x09, 0x01, 0xB1,
        0x04, 0x95, 0x1F, 0x85, 0x08, 0x09, 0x01, 0xB1, 0x04, 0xC0,
    ]
}

/// HID report descriptor shared by the MK.2, XL, + and Neo.
pub open spec fn modern_report_descriptor() -> Seq<u8> {
    seq![
        0x05u8, 0x0C, 0x09, 0x01, 0xA1, 0x01, 0x06, 0x00, 0xFF, 0x15, 0x00, 0x26,
        0xFF, 0x00, 0x75, 0x08, 0x96, 0xFF, 0x01, 0x85, 0x01, 0x09, 0x01, 0x81,
        0x02, 0x96, 0xFF, 0x03, 0x85, 0x02, 0x09, 0x01, 0x91, 0x02, 0x95, 0x1F,
        0x85, 0x03, 0x09, 0x01, 0xB1, 0x02, 0x95, 0x1F, 0x85, 0x04, 0x09, 0x01,
        0xB1, 0x02, 0x95, 0x1F, 0x85, 0x05, 0x09, 0x01, 0xB1, 0x02, 0x95, 0x1F,
        0x85, 0x06, 0x09, 0x01, 0xB1, 0x02, 0x95, 0x1F, 0x85, 0x07, 0x09, 0x01,
        0xB1, 0x02, 0x95, 0x1F, 0x85, 0x08, 0x09, 0x01, 0xB1, 0x02, 0x95, 0x1F,
        0x85, 0x0A, 0x09, 0x01, 0xB1, 0x02, 0xC0,
    ]
}

/// ASCII bytes of a firmware version string.
pub open spec fn mini_version() -> Seq<u8> {
    seq![0x31u8, 0x2e, 0x30, 0x2e, 0x31, 0x37, 0x30, 0x36, 0x30, 0x32]
}

/// "1.0.0" in ASCII.
pub open spec fn pedal_version() -> Seq<u8> {
    seq![0x31u8, 0x2e, 0x30, 0x2e, 0x30]
}

/// "1.0.0.0" in ASCII followed by a NUL byte.
pub open spec fn modern_version() -> Seq<u8> {
    seq![0x31u8, 0x2e, 0x30, 0x2e, 0x30, 0x2e, 0x30, 0x00]
}

/// A 32-byte feature report whose first byte is `report_id` and the rest zero.
pub open spec fn blank_report(report_id: u8) -> Seq<u8> {
    zeros(32).update(0, report_id)
}

/// Firmware report layout: [id, 0x0C, checksum[4], version[8]].
pub open spec fn firmware_report(report_id: u8) -> Seq<u8> {
    splice(blank_report(report_id).update(1, 0x0C), 6, modern_version())
}

/// Unit information report layout (report 0x08): rows, columns, key width and
/// height, LCD width and height (all little-endian), 24 bpp, RGB colour scheme.
pub open spec fn unit_info_layout(rows: u8, cols: u8, key_w: u16, key_h: u16, lcd_w: u16, lcd_h: u16) -> Seq<u8> {
    blank_report(0x08)
        .update(1, rows)
        .update(2, cols)
        .update(3, crate::bytes::lo(key_w))
        .update(4, crate::bytes::hi(key_w))
        .update(5, crate::bytes::lo(key_h))
        .update(6, crate::bytes::hi(key_h))
        .update(7, crate::bytes::lo(lcd_w))
        .update(8, crate::bytes::hi(lcd_w))
        .update(9, crate::bytes::lo(lcd_h))
        .update(10, crate::bytes::hi(lcd_h))
        .update(11, 24)
        .update(12, 0)
}

/// Smaller of two lengths.
pub open spec fn min_len(a: nat, b: nat) -> nat {
    if a < b { a } else { b }
}

impl StreamDeckModel {
    /// USB product id of the model.
    pub open spec fn product_id_spec(self) -> u16 {
        match self {
            StreamDeckModel::Mini => 0x0063,
            StreamDeckModel::Pedal => 0x0086,
            StreamDeckModel::Mk2 => 0x00B9,
            StreamDeckModel::Xl => 0x00BA,
            StreamDeckModel::Plus => 0x0084,
            StreamDeckModel::Neo => 0x009A,
        }
    }

    /// Product name of the model.
    pub open spec fn product_name_spec(self) -> Seq<char> {
        match self {
            StreamDeckModel::Mini => "Stream Deck Mini"@,
            StreamDeckModel::Pedal => "Stream Deck Pedal"@,
            StreamDeckModel::Mk2 => "Stream Deck MK.2"@,
            StreamDeckModel::Xl => "Stream Deck XL"@,
            StreamDeckModel::Plus => "Stream Deck +"@,
            StreamDeckModel::Neo => "Stream Deck Neo"@,
        }
    }

    /// Number of inputs reported by the model (the Neo's two touch points included).
    pub open spec fn num_buttons_spec(self) -> u8 {
        match self {
            StreamDeckModel::Mini => 6,
            StreamDeckModel::Pedal => 3,
            StreamDeckModel::Mk2 => 15,
            StreamDeckModel::Xl => 32,
            StreamDeckModel::Plus => 8,
            StreamDeckModel::Neo => 10,
        }
    }

    /// Maximum bus power in mA.
    pub open spec fn max_power_ma_spec(self) -> u16 {
        match self {
            StreamDeckModel::Mini => 200,
            StreamDeckModel::Pedal => 100,
            _ => 500,
        }
    }

    /// Number of keys (LCD keys or pedals) of the model.
    pub open spec fn key_count_spec(self) -> u8 {
        match self {
            StreamDeckModel::Mini => 6,
            StreamDeckModel::Pedal => 3,
            StreamDeckModel::Mk2 => 15,
            StreamDeckModel::Xl => 32,
            StreamDeckModel::Plus => 8,
            StreamDeckModel::Neo => 8,
        }
    }

    /// Key grid as (columns, rows).
    pub open spec fn key_matrix_spec(self) -> (u8, u8) {
        match self {
            StreamDeckModel::Mini => (3, 2),
            StreamDeckModel::Pedal => (3, 1),
            StreamDeckModel::Mk2 => (5, 3),
            StreamDeckModel::Xl => (8, 4),
            StreamDeckModel::Plus => (4, 2),
            StreamDeckModel::Neo => (4, 2),
        }
    }

    /// Key image size (width, height) in pixels.
    pub open spec fn key_image_size_spec(self) -> (u16, u16) {
        match self {
            StreamDeckModel::Mini => (80, 80),
            StreamDeckModel::Pedal => (0, 0),
            StreamDeckModel::Mk2 => (72, 72),
            StreamDeckModel::Xl => (96, 96),
            StreamDeckModel::Plus => (120, 120),
            StreamDeckModel::Neo => (96, 96),
        }
    }

    /// LCD size (width, height) in pixels.
    pub open spec fn lcd_size_spec(self) -> (u16, u16) {
        match self {
            StreamDeckModel::Mini => (320, 240),
            StreamDeckModel::Pedal => (0, 0),
            StreamDeckModel::Mk2 => (480, 272),
            StreamDeckModel::Xl => (1024, 600),
            StreamDeckModel::Plus => (800, 100),
            StreamDeckModel::Neo => (248, 58),
        }
    }

    /// Image format of the key images.
    pub open spec fn image_format_spec(self) -> Seq<char> {
        match self {
            StreamDeckModel::Mini => "BMP"@,
            StreamDeckModel::Pedal => "NONE"@,
            _ => "JPEG"@,
        }
    }

    /// Whether the model speaks the Module 15/32 protocol family.
    pub open spec fn is_modern(self) -> bool {
        match self {
            StreamDeckModel::Mk2 | StreamDeckModel::Xl | StreamDeckModel::Plus | StreamDeckModel::Neo => true,
            _ => false,
        }
    }

    /// HID report descriptor of the model.
    pub open spec fn report_descriptor_spec(self) -> Seq<u8> {
        match self {
            StreamDeckModel::Mini => mini_report_descriptor(),
            StreamDeckModel::Pedal => pedal_report_descriptor(),
            _ => modern_report_descriptor(),
        }
    }

    /// Maximum input report size (report id included) named in the HID configuration.
    pub open spec fn report_len_spec(self) -> u8 {
        match self {
            StreamDeckModel::Mini => 17,
            StreamDeckModel::Pedal => 8,
            StreamDeckModel::Plus => 14,
            _ => 32,
        }
    }

    /// Feature report id that carries the primary firmware version.
    pub open spec fn version_report_id_spec(self) -> u8 {
        match self {
            StreamDeckModel::Mini => 0xA1,
            _ => 0x05,
        }
    }

    /// Feature report id that carries the serial number.
    pub open spec fn serial_report_id_spec(self) -> u8 {
        match self {
            StreamDeckModel::Mini => 0x03,
            _ => 0x06,
        }
    }

    /// The version feature report of the model.
    pub open spec fn version_report_spec(self) -> Seq<u8> {
        match self {
            StreamDeckModel::Mini => splice(blank_report(0xA1), 5, mini_version()),
            StreamDeckModel::Pedal => splice(blank_report(0x05), 6, pedal_version()),
            StreamDeckModel::Plus => splice(blank_report(0x05), 5, modern_version()),
            _ => firmware_report(0x05),
        }
    }

    /// The serial feature report of the model for a serial given as bytes:
    /// the serial is cut to what the model's layout has room for.
    pub open spec fn serial_report_spec(self, serial: Seq<u8>) -> Seq<u8> {
        match self {
            StreamDeckModel::Mini => splice(blank_report(0x03), 5, serial.take(min_len(serial.len(), 12) as int)),
            StreamDeckModel::Pedal => splice(blank_report(0x06), 2, serial.take(min_len(serial.len(), 30) as int)),
            StreamDeckModel::Plus => splice(blank_report(0x06), 5, serial.take(min_len(serial.len(), 27) as int)),
            _ => splice(
                blank_report(0x06).update(1, min_len(serial.len(), 14) as u8),
                2,
                serial.take(min_len(serial.len(), 14) as int),
            ),
        }
    }

    /// The unit information report (report 0x08), for the models that have one.
    pub open spec fn unit_info_spec(self) -> Option<Seq<u8>> {
        match self {
            StreamDeckModel::Mk2 => Some(unit_info_layout(3, 5, 72, 72, 480, 272)),
            StreamDeckModel::Xl => Some(unit_info_layout(4, 8, 96, 96, 1024, 600)),
            StreamDeckModel::Plus => Some(unit_info_layout(2, 4, 120, 120, 800, 100)),
            StreamDeckModel::Neo => Some(unit_info_layout(2, 4, 96, 96, 248, 58)),
            _ => None,
        }
    }

    /// Answer to a GET_REPORT request for a feature report, if the id is known.
    pub open spec fn feature_report_spec(self, report_id: u8, serial: Seq<u8>) -> Option<Seq<u8>> {
        if report_id == self.version_report_id_spec() {
            Some(self.version_report_spec())
        } else if report_id == self.serial_report_id_spec() {
            Some(self.serial_report_spec(serial))
        } else if report_id == 0x08 {
            self.unit_info_spec()
        } else if self.is_modern() && (report_id == 0x04 || report_id == 0x07) {
            Some(firmware_report(report_id))
        } else if self.is_modern() && report_id == 0x0A {
            Some(blank_report(0x0A).update(1, 0x04))
        } else {
            None
        }
    }

    /// Returns the USB product id of the model.
    pub fn product_id(&self) -> (r: u16)
        ensures
            r == self.product_id_spec(),
    {
        match self {
            StreamDeckModel::Mini => 0x0063,
            StreamDeckModel::Pedal => 0x0086,
            StreamDeckModel::Mk2 => 0x00B9,
            StreamDeckModel::Xl => 0x00BA,
            StreamDeckModel::Plus => 0x0084,
            StreamDeckModel::Neo => 0x009A,
        }
    }

    /// Returns the product name of the model.
    pub fn product_name(&self) -> (r: &'static str)
        ensures
            r@ == self.product_name_spec(),
    {
        match self {
            StreamDeckModel::Mini => "Stream Deck Mini",
            StreamDeckModel::Pedal => "Stream Deck Pedal",
            StreamDeckModel::Mk2 => "Stream Deck MK.2",
            StreamDeckModel::Xl => "Stream Deck XL",
            StreamDeckModel::Plus => "Stream Deck +",
            StreamDeckModel::Neo => "Stream Deck Neo",
        }
    }

    /// Returns the USB id (Elgato vendor id, model product id).
    pub fn usb_id(&self) -> (r: Id)
        ensures
            r == usb_id_of(ELGATO_VENDOR_ID, self.product_id_spec()),
    {
        make_usb_id(ELGATO_VENDOR_ID, self.product_id())
    }

    /// Returns the USB device class; 0/0/0 means the class is defined per interface.
    pub fn device_class(&self) -> (r: Class)
        ensures
            r == usb_class_of(0, 0, 0),
    {
        make_usb_class(0, 0, 0)
    }

    /// Returns the USB strings: "Elgato", the product name and the serial.
    pub fn usb_strings(&self, serial: &str) -> (r: Strings)
        ensures
            r == usb_strings_of("Elgato"@, self.product_name_spec(), serial@),
    {
        make_usb_strings("Elgato", self.product_name(), serial)
    }

    /// Returns bcdDevice, the device version 1.10.
    pub fn bcd_device(&self) -> (r: u16)
        ensures
            r == 0x0110,
    {
        0x0110
    }

    /// Returns the number of inputs the model reports.
    pub fn num_buttons(&self) -> (r: u8)
        ensures
            r == self.num_buttons_spec(),
    {
        match self {
            StreamDeckModel::Mini => 6,
            StreamDeckModel::Pedal => 3,
            StreamDeckModel::Mk2 => 15,
            StreamDeckModel::Xl => 32,
            StreamDeckModel::Plus => 8,
            StreamDeckModel::Neo => 10,
        }
    }

    /// Returns the maximum packet size of endpoint 0.
    pub fn max_packet_size0(&self) -> (r: u8)
        ensures
            r == 64,
    {
        64
    }

    /// Returns the maximum bus power in mA.
    pub fn max_power_ma(&self) -> (r: u16)
        ensures
            r == self.max_power_ma_spec(),
    {
        match self {
            StreamDeckModel::Mini => 200,
            StreamDeckModel::Pedal => 100,
            StreamDeckModel::Mk2 => 500,
            StreamDeckModel::Xl => 500,
            StreamDeckModel::Plus => 500,
            StreamDeckModel::Neo => 500,
        }
    }

    /// Returns the HID configuration of the model.
    pub fn hid_config(&self) -> (r: StreamDeckHidConfig)
        ensures
            r.protocol == 0,
            r.sub_class == 0,
            r.in_max_packet_size == (if *self == StreamDeckModel::Pedal { 64u16 } else { 512u16 }),
            r.out_max_packet_size == (if *self == StreamDeckModel::Pedal { 64u16 } else { 1024u16 }),
            r.interval == 1,
            r.report_descriptor@ == self.report_descriptor_spec(),
            r.report_len == self.report_len_spec(),
    {
        match self {
            StreamDeckModel::Mini => StreamDeckHidConfig {
                protocol: 0,
                sub_class: 0,
                in_max_packet_size: 512,
                out_max_packet_size: 1024,
                interval: 1,
                report_descriptor: Self::stream_deck_mini_report_descriptor(),
                report_len: 17,
            },
            StreamDeckModel::Pedal => StreamDeckHidConfig {
                protocol: 0,
                sub_class: 0,
                in_max_packet_size: 64,
                out_max_packet_size: 64,
                interval: 1,
                report_descriptor: Self::stream_deck_pedal_report_descriptor(),
                report_len: 8,
            },
            StreamDeckModel::Mk2 | StreamDeckModel::Xl | StreamDeckModel::Neo => StreamDeckHidConfig {
                protocol: 0,
                sub_class: 0,
                in_max_packet_size: 512,
                out_max_packet_size: 1024,
                interval: 1,
                report_descriptor: Self::stream_deck_modern_report_descriptor(),
                report_len: 32,
            },
            StreamDeckModel::Plus => StreamDeckHidConfig {
                protocol: 0,
                sub_class: 0,
                in_max_packet_size: 512,
                out_max_packet_size: 1024,
                interval: 1,
                report_descriptor: Self::stream_deck_modern_report_descriptor(),
                report_len: 14,
            },
        }
    }

    /// The Stream Deck Mini HID report descriptor.
    fn stream_deck_mini_report_descriptor() -> (d: Vec<u8>)
        ensures
            d@ == mini_report_descriptor(),
    {
        let d = vec![
            0x05u8, 0x0C, 0x09, 0x01, 0xA1, 0x01, 0x09, 0x01, 0x05, 0x09, 0x19, 0x01,
            0x29, 0x10, 0x15, 0x00, 0x26, 0xFF, 0x00, 0x75, 0x08, 0x95, 0x10, 0x85,
            0x01, 0x81, 0x02, 0x0A, 0x00, 0xFF, 0x15, 0x00, 0x26, 0xFF, 0x00, 0x75,
            0x08, 0x96, 0xFF, 0x03, 0x85, 0x02, 0x91, 0x02, 0x0A, 0x00, 0xFF, 0x15,
            0x00, 0x26, 0xFF, 0x00, 0x75, 0x08, 0x95, 0x1F, 0x85, 0x03, 0xB1, 0x04,
            0x0A, 0x00, 0xFF, 0x15, 0x00, 0x26, 0xFF, 0x00, 0x75, 0x08, 0x95, 0x10,
            0x85, 0x04, 0xB1, 0x04, 0x0A, 0x00, 0xFF, 0x15, 0x00, 0x26, 0xFF, 0x00,
            0x75, 0x08, 0x95, 0x10, 0x85, 0x05, 0xB1, 0x04, 0x0A, 0x00, 0xFF, 0x15,
            0x00, 0x26, 0xFF, 0x00, 0x75, 0x08, 0x95, 0x10, 0x85, 0x07, 0xB1, 0x04,
            0x0A, 0x00, 0xFF, 0x15, 0x00, 0x26, 0xFF, 0x00, 0x75, 0x08, 0x95, 0x10,
            0x85, 0x0B, 0xB1, 0x04, 0x0A, 0x00, 0xFF, 0x15, 0x00, 0x26, 0xFF, 0x00,
            0x75, 0x08, 0x95, 0x10, 0x85, 0xA0, 0xB1, 0x04, 0x0A, 0x00, 0xFF, 0x15,
            0x00, 0x26, 0xFF, 0x00, 0x75, 0x08, 0x95, 0x10, 0x85, 0xA1, 0xB1, 0x04,
            0x0A, 0x00, 0xFF, 0x15, 0x00, 0x26, 0xFF, 0x00, 0x75, 0x08, 0x95, 0x10,
            0x85, 0xA2, 0xB1, 0x04, 0x0A, 0x00, 0xFF, 0x15, 0x00, 0x26, 0xFF, 0x00,
            0x75, 0x08, 0x95, 0x10, 0x85, 0xA3, 0xB1, 0x04, 0x0A, 0x00, 0xFF, 0x15,
            0x00, 0x26, 0xFF, 0x00, 0x75, 0x08, 0x95, 0x1F, 0x85, 0xA4, 0xB1, 0x04,
            0x0A, 0x00, 0xFF, 0x15, 0x00, 0x26, 0xFF, 0x00, 0x75, 0x08, 0x95, 0x1F,
            0x85, 0xA5, 0xB1, 0x04, 0xC0,
        ];
        assert(d@ =~= mini_report_descriptor());
        d
    }

    /// The Stream Deck Pedal HID report descriptor.
    fn stream_deck_pedal_report_descriptor() -> (d: Vec<u8>)
        ensures
            d@ == pedal_report_descriptor(),
    {
        let d = vec![
            0x05u8, 0x0C, 0x09, 0x01, 0xA1, 0x01, 0x06, 0x00, 0xFF, 0x15, 0x00, 0x26,
            0xFF, 0x00, 0x75, 0x08, 0x96, 0xFF, 0x03, 0x85, 0x02, 0x09, 0x01, 0x91,
            0x02, 0x95, 0x07, 0x85, 0x01, 0x09, 0x01, 0x81, 0x02, 0x95, 0x1F, 0x85,
            0x03, 0x09, 0x01, 0xB1, 0x04, 0x95, 0x1F, 0x85, 0x06, 0x09, 0x01, 0xB1,
            0x04, 0x95, 0x1F, 0x85, 0x07, 0x09, 0x01, 0xB1, 0x04, 0x95, 0x1F, 0x85,
            0x05, 0x09, 0x01, 0xB1, 0x04, 0x95, 0x1F, 0x85, 0x04, 0x09, 0x01, 0xB1,
            0x04, 0x95, 0x1F, 0x85, 0x08, 0x09, 0x01, 0xB1, 0x04, 0xC0,
        ];
        assert(d@ =~= pedal_report_descriptor());
        d
    }

    /// The HID report descriptor shared by the MK.2, XL, + and Neo.
    fn stream_deck_modern_report_descriptor() -> (d: Vec<u8>)
        ensures
            d@ == modern_report_descriptor(),
    {
        let d = vec![
            0x05u8, 0x0C, 0x09, 0x01, 0xA1, 0x01, 0x06, 0x00, 0xFF, 0x15, 0x00, 0x26,
            0xFF, 0x00, 0x75, 0x08, 0x96, 0xFF, 0x01, 0x85, 0x01, 0x09, 0x01, 0x81,
            0x02, 0x96, 0xFF, 0x03, 0x85, 0x02, 0x09, 0x01, 0x91, 0x02, 0x95, 0x1F,
            0x85, 0x03, 0x09, 0x01, 0xB1, 0x02, 0x95, 0x1F, 0x85, 0x04, 0x09, 0x01,
            0xB1, 0x02, 0x95, 0x1F, 0x85, 0x05, 0x09, 0x01, 0xB1, 0x02, 0x95, 0x1F,
            0x85, 0x06, 0x09, 0x01, 0xB1, 0x02, 0x95, 0x1F, 0x85, 0x07, 0x09, 0x01,
            0xB1, 0x02, 0x95, 0x1F, 0x85, 0x08, 0x09, 0x01, 0xB1, 0x02, 0x95, 0x1F,
            0x85, 0x0A, 0x09, 0x01, 0xB1, 0x02, 0xC0,
        ];
        assert(d@ =~= modern_report_descriptor());
        d
    }

    /// Returns the feature report id of the primary firmware version.
    pub fn version_report_id(&self) -> (r: u8)
        ensures
            r == self.version_report_id_spec(),
    {
        match self {
            StreamDeckModel::Mini => 0xA1,
            StreamDeckModel::Pedal => 0x05,
            StreamDeckModel::Mk2 | StreamDeckModel::Xl | StreamDeckModel::Plus | StreamDeckModel::Neo => 0x05,
        }
    }

    /// Returns the feature report id of the serial number.
    pub fn serial_report_id(&self) -> (r: u8)
        ensures
            r == self.serial_report_id_spec(),
    {
        match self {
            StreamDeckModel::Mini => 0x03,
            StreamDeckModel::Pedal => 0x06,
            StreamDeckModel::Mk2 | StreamDeckModel::Xl | StreamDeckModel::Plus | StreamDeckModel::Neo => 0x06,
        }
    }

    /// Returns the 32-byte version feature report.
    pub fn version_report(&self) -> (r: Vec<u8>)
        ensures
            r@ == self.version_report_spec(),
    {
        let mut report = zeroed(32);
        match self {
            StreamDeckModel::Mini => {
                report.set(0, 0xA1);
                let version: [u8; 10] = [0x31, 0x2e, 0x30, 0x2e, 0x31, 0x37, 0x30, 0x36, 0x30, 0x32];
                assert(version@ =~= mini_version());
                write_prefix(&mut report, 5, &version, 10);
            },
            StreamDeckModel::Pedal => {
                report.set(0, 0x05);
                let version: [u8; 5] = [0x31, 0x2e, 0x30, 0x2e, 0x30];
                assert(version@ =~= pedal_version());
                write_prefix(&mut report, 6, &version, 5);
            },
            StreamDeckModel::Mk2 | StreamDeckModel::Xl | StreamDeckModel::Neo => {
                report.set(0, 0x05);
                report.set(1, 0x0C);
                let version: [u8; 8] = [0x31, 0x2e, 0x30, 0x2e, 0x30, 0x2e, 0x30, 0x00];
                assert(version@ =~= modern_version());
                write_prefix(&mut report, 6, &version, 8);
            },
            StreamDeckModel::Plus => {
                report.set(0, 0x05);
                let version: [u8; 8] = [0x31, 0x2e, 0x30, 0x2e, 0x30, 0x2e, 0x30, 0x00];
                assert(version@ =~= modern_version());
                write_prefix(&mut report, 5, &version, 8);
            },
        }
        assert(report@ =~= self.version_report_spec());
        report
    }

    /// Returns the 32-byte serial feature report for `serial`, cut to the
    /// model's room for it.
    pub fn serial_report(&self, serial: &str) -> (r: Vec<u8>)
        ensures
            r@ == self.serial_report_spec(serial.spec_bytes()),
    {
        let mut report = zeroed(32);
        let serial_bytes = serial.as_bytes();
        let n = serial_bytes.len();
        match self {
            StreamDeckModel::Mini => {
                report.set(0, 0x03);
                let copy_len = if n < 12 { n } else { 12 };
                write_prefix(&mut report, 5, serial_bytes, copy_len);
            },
            StreamDeckModel::Pedal => {
                report.set(0, 0x06);
                let copy_len = if n < 30 { n } else { 30 };
                write_prefix(&mut report, 2, serial_bytes, copy_len);
            },
            StreamDeckModel::Mk2 | StreamDeckModel::Xl | StreamDeckModel::Neo => {
                report.set(0, 0x06);
                let copy_len = if n < 14 { n } else { 14 };
                report.set(1, copy_len as u8);
                write_prefix(&mut report, 2, serial_bytes, copy_len);
            },
            StreamDeckModel::Plus => {
                report.set(0, 0x06);
                let copy_len = if n < 27 { n } else { 27 };
                write_prefix(&mut report, 5, serial_bytes, copy_len);
            },
        }
        assert(report@ =~= self.serial_report_spec(serial.spec_bytes()));
        report
    }

    /// Builds a firmware version report: [id, 0x0C, checksum[4], version[8]].
    fn make_firmware_report(report_id: u8) -> (r: Vec<u8>)
        ensures
            r@ == firmware_report(report_id),
    {
        let mut report = zeroed(32);
        report.set(0, report_id);
        report.set(1, 0x0C);
        let version: [u8; 8] = [0x31, 0x2e, 0x30, 0x2e, 0x30, 0x2e, 0x30, 0x00];
        assert(version@ =~= modern_version());
        write_prefix(&mut report, 6, &version, 8);
        report
    }

    /// Answers a GET_REPORT request for feature report `report_id`, or `None`
    /// if the model does not know that id.
    pub fn get_feature_report(&self, report_id: u8, serial: &str) -> (r: Option<Vec<u8>>)
        ensures
            match r {
                Some(v) => self.feature_report_spec(report_id, serial.spec_bytes()) == Some(v@),
                None => self.feature_report_spec(report_id, serial.spec_bytes()) is None,
            },
    {
        if report_id == self.version_report_id() {
            Some(self.version_report())
        } else if report_id == self.serial_report_id() {
            Some(self.serial_report(serial))
        } else if report_id == 0x08 {
            self.unit_info_report()
        } else {
            match self {
                StreamDeckModel::Mk2 | StreamDeckModel::Xl | StreamDeckModel::Plus | StreamDeckModel::Neo => {
                    if report_id == 0x04 {
                        Some(Self::make_firmware_report(0x04))
                    } else if report_id == 0x07 {
                        Some(Self::make_firmware_report(0x07))
                    } else if report_id == 0x0A {
                        let mut report = zeroed(32);
                        report.set(0, 0x0A);
                        report.set(1, 0x04);
                        assert(report@ =~= blank_report(0x0A).update(1, 0x04));
                        Some(report)
                    } else {
                        None
                    }
                },
                _ => None,
            }
        }
    }

    /// Returns the configuration attributes (bus powered, remote wakeup,
    /// configuration 1, one interface).
    pub fn config_attributes(&self) -> (r: ConfigAttributes)
        ensures
            r.bus_powered,
            r.remote_wakeup,
            r.config_value == 1,
            r.num_interfaces == 1,
    {
        ConfigAttributes { bus_powered: true, remote_wakeup: true, config_value: 1, num_interfaces: 1 }
    }

    /// Returns the number of keys.
    pub fn key_count(&self) -> (r: u8)
        ensures
            r == self.key_count_spec(),
    {
        match self {
            StreamDeckModel::Mini => 6,
            StreamDeckModel::Pedal => 3,
            StreamDeckModel::Mk2 => 15,
            StreamDeckModel::Xl => 32,
            StreamDeckModel::Plus => 8,
            StreamDeckModel::Neo => 8,
        }
    }

    /// Returns the key grid as (columns, rows).
    pub fn key_matrix(&self) -> (r: (u8, u8))
        ensures
            r == self.key_matrix_spec(),
    {
        match self {
            StreamDeckModel::Mini => (3, 2),
            StreamDeckModel::Pedal => (3, 1),
            StreamDeckModel::Mk2 => (5, 3),
            StreamDeckModel::Xl => (8, 4),
            StreamDeckModel::Plus => (4, 2),
            StreamDeckModel::Neo => (4, 2),
        }
    }

    /// Returns the key image size (width, height) in pixels.
    pub fn key_image_size(&self) -> (r: (u16, u16))
        ensures
            r == self.key_image_size_spec(),
    {
        match self {
            StreamDeckModel::Mini => (80, 80),
            StreamDeckModel::Pedal => (0, 0),
            StreamDeckModel::Mk2 => (72, 72),
            StreamDeckModel::Xl => (96, 96),
            StreamDeckModel::Plus => (120, 120),
            StreamDeckModel::Neo => (96, 96),
        }
    }

    /// Returns the LCD size (width, height) in pixels.
    pub fn lcd_size(&self) -> (r: (u16, u16))
        ensures
            r == self.lcd_size_spec(),
    {
        match self {
            StreamDeckModel::Mini => (320, 240),
            StreamDeckModel::Pedal => (0, 0),
            StreamDeckModel::Mk2 => (480, 272),
            StreamDeckModel::Xl => (1024, 600),
            StreamDeckModel::Plus => (800, 100),
            StreamDeckModel::Neo => (248, 58),
        }
    }

    /// Returns the key image format ("BMP", "JPEG", or "NONE" for the Pedal).
    pub fn image_format(&self) -> (r: &'static str)
        ensures
            r@ == self.image_format_spec(),
    {
        match self {
            StreamDeckModel::Mini => "BMP",
            StreamDeckModel::Pedal => "NONE",
            StreamDeckModel::Mk2 | StreamDeckModel::Xl | StreamDeckModel::Plus | StreamDeckModel::Neo => "JPEG",
        }
    }

    /// Returns the unit information report (report 0x08) for the models that have one.
    pub fn unit_info_report(&self) -> (r: Option<Vec<u8>>)
        ensures
            match r {
                Some(v) => self.unit_info_spec() == Some(v@),
                None => self.unit_info_spec() is None,
            },
    {
        match self {
            StreamDeckModel::Mk2 => Some(unit_info(3, 5, 72, 0, 72, 0, 0xE0, 0x01, 0x10, 0x01)),
            StreamDeckModel::Xl => Some(unit_info(4, 8, 96, 0, 96, 0, 0x00, 0x04, 0x58, 0x02)),
            StreamDeckModel::Plus => Some(unit_info(2, 4, 120, 0, 120, 0, 0x20, 0x03, 0x64, 0x00)),
            StreamDeckModel::Neo => Some(unit_info(2, 4, 96, 0, 96, 0, 0xF8, 0x00, 0x3A, 0x00)),
            _ => None,
        }
    }
}

/// Fills a unit information report from its bytes.
fn unit_info(rows: u8, cols: u8, kw_lo: u8, kw_hi: u8, kh_lo: u8, kh_hi: u8, lw_lo: u8, lw_hi: u8, lh_lo: u8, lh_hi: u8) -> (r: Vec<u8>)
    ensures
        r@ == blank_report(0x08)
            .update(1, rows).update(2, cols)
            .update(3, kw_lo).update(4, kw_hi).update(5, kh_lo).update(6, kh_hi)
            .update(7, lw_lo).update(8, lw_hi).update(9, lh_lo).update(10, lh_hi)
            .update(11, 24).update(12, 0),
{
    let mut report = zeroed(32);
    report.set(0, 0x08);
    report.set(1, rows);
    report.set(2, cols);
    report.set(3, kw_lo);
    report.set(4, kw_hi);
    report.set(5, kh_lo);
    report.set(6, kh_hi);
    report.set(7, lw_lo);
    report.set(8, lw_hi);
    report.set(9, lh_lo);
    report.set(10, lh_hi);
    report.set(11, 24);
    report.set(12, 0);
    report
}

/// The unit information report of every model that has one agrees with the
/// model's key grid, key image size and LCD size.
pub proof fn law_unit_info_matches_geometry(m: StreamDeckModel)
    requires
        m.is_modern(),
    ensures
        m.unit_info_spec() == Some(unit_info_layout(
            m.key_matrix_spec().1,
            m.key_matrix_spec().0,
            m.key_image_size_spec().0,
            m.key_image_size_spec().1,
            m.lcd_size_spec().0,
            m.lcd_size_spec().1,
        )),
{
}

/// Every feature report a model answers is 32 bytes long and begins with the
/// id it was asked for; the version and serial ids give the version and
/// serial reports.
pub proof fn law_feature_reports_are_tagged(m: StreamDeckModel, report_id: u8, serial: Seq<u8>)
    ensures
        m.feature_report_spec(m.version_report_id_spec(), serial) == Some(m.version_report_spec()),
        m.feature_report_spec(m.serial_report_id_spec(), serial) == Some(m.serial_report_spec(serial)),
        m.feature_report_spec(report_id, serial) matches Some(r) ==> r.len() == 32 && r[0] == report_id,
{
}

/// The serial report carries the serial's first bytes, as many as the
/// model's layout has room for (12 on the Mini, 30 on the Pedal, 27 on the
/// +, 14 on the others), from the model's serial offset on.
pub proof fn law_serial_report_carries_serial(m: StreamDeckModel, serial: Seq<u8>, i: int)
    ensures
        ({
            let (at, room) = match m {
                StreamDeckModel::Mini => (5int, 12nat),
                StreamDeckModel::Pedal => (2int, 30nat),
                StreamDeckModel::Plus => (5int, 27nat),
                _ => (2int, 14nat),
            };
            0 <= i < min_len(serial.len(), room) ==> m.serial_report_spec(serial)[at + i] == serial[i]
        }),
{
}

} // verus!
