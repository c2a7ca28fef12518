//! USB HID class-specific constants and descriptor structures, with their packed
//! little-endian wire layout.
use vstd::prelude::*;

verus! {

/// USB interface class for HID devices.
pub const CLASS_HID: u8 = 3;

/// USB interface subclass for boot devices.
pub const SUBCLASS_BOOT: u8 = 1;

/// HID report protocol mode.
pub const REPORT_PROTOCOL: u8 = 1;

/// USB descriptor type for HID.
pub const USB_DESC_TYPE_HID: u8 = 0x21;

/// USB descriptor type for HID report.
pub const USB_DESC_TYPE_REPORT: u8 = 0x22;

/// USB HID class-specific request: GET_REPORT.
pub const USB_HID_GET_REPORT_REQUEST: u8 = 0x01;

/// USB HID class-specific request: SET_REPORT.
pub const USB_HID_SET_REPORT_REQUEST: u8 = 0x09;

/// USB HID class-specific request: SET_PROTOCOL.
pub const USB_HID_SET_PROTOCOL_REQUEST: u8 = 0x0B;

/// USB request type: class, interface, host-to-device.
pub const USB_REQ_TYPE_CLASS_INTERFACE_OUT: u8 = 0x21;

/// USB request type: class, interface, device-to-host.
pub const USB_REQ_TYPE_CLASS_INTERFACE_IN: u8 = 0xA1;

/// USB request type: standard, endpoint, host-to-device.
pub const USB_REQ_TYPE_STANDARD_ENDPOINT_OUT: u8 = 0x02;

/// USB request type: standard, device, device-to-host.
pub const USB_REQ_TYPE_STANDARD_DEVICE_IN: u8 = 0x80;

/// USB standard request: CLEAR_FEATURE.
pub const USB_REQ_CLEAR_FEATURE: u8 = 0x01;

/// USB feature selector: ENDPOINT_HALT.
pub const USB_FEATURE_ENDPOINT_HALT: u16 = 0;

/// USB standard request: GET_DESCRIPTOR.
pub const USB_REQ_GET_DESCRIPTOR: u8 = 0x06;

/// Timeout for USB control transfers (in milliseconds).
pub const USB_TRANSFER_TIMEOUT_MS: u32 = 3000;

/// Bytes of a HID class descriptor entry on the wire.
pub const HID_CLASS_DESCRIPTOR_BYTES: usize = 3;

/// Bytes of the fixed part of a USB HID descriptor on the wire.
pub const USB_HID_DESCRIPTOR_BYTES: usize = 6;

/// The little-endian 16-bit value of bytes `lo`, `hi`.
pub open spec fn le16(lo: u8, hi: u8) -> u16 {
    (lo + hi * 256) as u16
}

/// HID class descriptor entry (type + length pair).
#[derive(Debug, Clone, Copy, Default, PartialEq, Eq, Structural)]
pub struct HidClassDescriptor {
    pub descriptor_type: u8,
    pub descriptor_length: u16,
}

/// USB HID descriptor (the fixed part; a variable-length array of `HidClassDescriptor`
/// follows it on the wire).
#[derive(Debug, Clone, Copy, PartialEq, Eq, Structural)]
pub struct EfiUsbHidDescriptor {
    pub length: u8,
    pub descriptor_type: u8,
    pub bcd_hid: u16,
    pub country_code: u8,
    pub num_descriptors: u8,
}

/// Splits a 16-bit value into its little-endian bytes.
fn le16_bytes(v: u16) -> (b: (u8, u8))
    ensures
        le16(b.0, b.1) == v,
{
    let lo = (v % 256) as u8;
    let hi = (v / 256) as u8;
    (lo, hi)
}

impl HidClassDescriptor {
    /// The packed wire layout: type, then length little-endian.
    pub open spec fn wire(self) -> Seq<u8> {
        seq![
            self.descriptor_type,
            (self.descriptor_length % 256) as u8,
            (self.descriptor_length / 256) as u8,
        ]
    }

    /// Reads an entry from the start of `bytes`, or `None` when fewer than 3 bytes remain.
    pub fn from_bytes(bytes: &[u8]) -> (r: Option<Self>)
        ensures
            bytes@.len() < HID_CLASS_DESCRIPTOR_BYTES ==> r is None,
            bytes@.len() >= HID_CLASS_DESCRIPTOR_BYTES ==> r == Some(
                HidClassDescriptor {
                    descriptor_type: bytes@[0],
                    descriptor_length: le16(bytes@[1], bytes@[2]),
                },
            ),
    {
        if bytes.len() < HID_CLASS_DESCRIPTOR_BYTES {
            return None;
        }
        Some(
            HidClassDescriptor {
                descriptor_type: bytes[0],
                descriptor_length: (bytes[1] as u16) + (bytes[2] as u16) * 256,
            },
        )
    }

    /// Writes the entry in its packed wire layout.
    pub fn to_bytes(&self) -> (b: Vec<u8>)
        ensures
            b@ == self.wire(),
    {
        let (lo, hi) = le16_bytes(self.descriptor_length);
        let mut b = Vec::new();
        b.push(self.descriptor_type);
        b.push(lo);
        b.push(hi);
        assert(b@ =~= self.wire());
        b
    }
}

impl EfiUsbHidDescriptor {
    /// The packed wire layout: length, type, bcdHID little-endian, country code, count.
    pub open spec fn wire(self) -> Seq<u8> {
        seq![
            self.length,
            self.descriptor_type,
            (self.bcd_hid % 256) as u8,
            (self.bcd_hid / 256) as u8,
            self.country_code,
            self.num_descriptors,
        ]
    }

    /// Reads the descriptor from the start of `bytes`, or `None` when fewer than 6 bytes
    /// remain.
    pub fn from_bytes(bytes: &[u8]) -> (r: Option<Self>)
        ensures
            bytes@.len() < USB_HID_DESCRIPTOR_BYTES ==> r is None,
            bytes@.len() >= USB_HID_DESCRIPTOR_BYTES ==> r == Some(
                EfiUsbHidDescriptor {
                    length: bytes@[0],
                    descriptor_type: bytes@[1],
                    bcd_hid: le16(bytes@[2], bytes@[3]),
                    country_code: bytes@[4],
                    num_descriptors: bytes@[5],
                },
            ),
    {
        if bytes.len() < USB_HID_DESCRIPTOR_BYTES {
            return None;
        }
        Some(
            EfiUsbHidDescriptor {
                length: bytes[0],
                descriptor_type: bytes[1],
                bcd_hid: (bytes[2] as u16) + (bytes[3] as u16) * 256,
                country_code: bytes[4],
                num_descriptors: bytes[5],
            },
        )
    }

    /// Writes the descriptor in its packed wire layout.
    pub fn to_bytes(&self) -> (b: Vec<u8>)
        ensures
            b@ == self.wire(),
    {
        let (lo, hi) = le16_bytes(self.bcd_hid);
        let mut b = Vec::new();
        b.push(self.length);
        b.push(self.descriptor_type);
        b.push(lo);
        b.push(hi);
        b.push(self.country_code);
        b.push(self.num_descriptors);
        assert(b@ =~= self.wire());
        b
    }
}

/// Reading back what was written gives the same HID class descriptor entry.
pub proof fn lemma_hid_class_descriptor_round_trip(d: HidClassDescriptor)
    ensures
        d.wire().len() == HID_CLASS_DESCRIPTOR_BYTES,
        (HidClassDescriptor {
            descriptor_type: d.wire()[0],
            descriptor_length: le16(d.wire()[1], d.wire()[2]),
        }) == d,
{
}

/// Reading back what was written gives the same USB HID descriptor.
pub proof fn lemma_usb_hid_descriptor_round_trip(d: EfiUsbHidDescriptor)
    ensures
        d.wire().len() == USB_HID_DESCRIPTOR_BYTES,
        (EfiUsbHidDescriptor {
            length: d.wire()[0],
            descriptor_type: d.wire()[1],
            bcd_hid: le16(d.wire()[2], d.wire()[3]),
            country_code: d.wire()[4],
            num_descriptors: d.wire()[5],
        }) == d,
{
}

} // verus!
