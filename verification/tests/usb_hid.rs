use patina_components::usb_hid_defs::{
    EfiUsbHidDescriptor, HidClassDescriptor, CLASS_HID, USB_DESC_TYPE_HID, USB_DESC_TYPE_REPORT,
};

#[test]
fn hid_class_descriptor_wire_layout_is_packed_little_endian() {
    let d = HidClassDescriptor { descriptor_type: USB_DESC_TYPE_REPORT, descriptor_length: 0x0134 };
    assert_eq!(d.to_bytes(), vec![0x22, 0x34, 0x01]);
    assert_eq!(HidClassDescriptor::from_bytes(&[0x22, 0x34, 0x01, 0xFF]), Some(d));
    assert_eq!(HidClassDescriptor::from_bytes(&[0x22, 0x34]), None);
    assert_eq!(HidClassDescriptor::default(), HidClassDescriptor { descriptor_type: 0, descriptor_length: 0 });
}

#[test]
fn usb_hid_descriptor_round_trips() {
    let d = EfiUsbHidDescriptor {
        length: 9,
        descriptor_type: USB_DESC_TYPE_HID,
        bcd_hid: 0x0111,
        country_code: 0,
        num_descriptors: 1,
    };
    let bytes = d.to_bytes();
    assert_eq!(bytes, vec![9, 0x21, 0x11, 0x01, 0, 1]);
    assert_eq!(EfiUsbHidDescriptor::from_bytes(&bytes), Some(d));
    assert_eq!(EfiUsbHidDescriptor::from_bytes(&bytes[..5]), None);
    assert_eq!(CLASS_HID, 3);
}
