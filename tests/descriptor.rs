use usb_sysfs::descriptor::{
    DeviceDescriptor, InterfaceDescriptor, DEVICE_DESCRIPTOR_SIZE, INTERFACE_DESCRIPTOR_SIZE,
};
use usb_sysfs::error::UsbError;
use usb_sysfs::path::OwnedPath;
use usb_sysfs::scan::{list_devices, ReadOutcome, Step};

const DEVICE: [u8; 18] = [
    18, 1, 0x00, 0x02, 9, 0, 1, 64, 0x6b, 0x1d, 0x02, 0x00, 0x19, 0x05, 3, 2, 1, 1,
];

#[test]
fn device_descriptor_fields() {
    let d = DeviceDescriptor::decode(&DEVICE).unwrap();
    assert_eq!(
        d,
        DeviceDescriptor {
            length: 18,
            descriptor_type: 1,
            bcd_usb: 0x0200,
            device_class: 9,
            device_sub_class: 0,
            device_protocol: 1,
            max_packet_size_0: 64,
            id_vendor: 0x1d6b,
            id_product: 0x0002,
            bcd_device: 0x0519,
            manufacturer: 3,
            product: 2,
            serial_number: 1,
            num_configurations: 1,
        }
    );
}

#[test]
fn device_descriptor_ignores_trailing_bytes() {
    let mut long = DEVICE.to_vec();
    long.extend_from_slice(&[9, 2, 25, 0]);
    assert_eq!(DeviceDescriptor::decode(&long), DeviceDescriptor::decode(&DEVICE));
}

#[test]
fn short_device_descriptor_is_refused() {
    assert_eq!(
        DeviceDescriptor::decode(&DEVICE[..17]),
        Err(UsbError::ShortRead { expected: DEVICE_DESCRIPTOR_SIZE, actual: 17 })
    );
    assert_eq!(
        DeviceDescriptor::decode(&[]),
        Err(UsbError::ShortRead { expected: 18, actual: 0 })
    );
}

#[test]
fn interface_descriptor_fields_and_short_read() {
    let bytes = [9u8, 4, 0, 0, 1, 9, 0, 0, 0];
    assert_eq!(
        InterfaceDescriptor::decode(&bytes),
        Ok(InterfaceDescriptor {
            length: 9,
            descriptor_type: 4,
            interface_number: 0,
            alternate_setting: 0,
            num_endpoints: 1,
            interface_class: 9,
            interface_subclass: 0,
            interface_protocol: 0,
            index_interface: 0,
        })
    );
    assert_eq!(
        InterfaceDescriptor::decode(&bytes[..8]),
        Err(UsbError::ShortRead { expected: INTERFACE_DESCRIPTOR_SIZE, actual: 8 })
    );
    assert_eq!(UsbError::ShortRead { expected: 9, actual: 8 }.os_code(), None);
}

#[test]
fn device_reads_its_descriptors() {
    let mut devs = list_devices(OwnedPath::duplicate(b"usb1"));
    let dev = match devs.advance(ReadOutcome::Entry(b"1-1:1.0".to_vec())) {
        Step::Item(d) => d,
        _ => panic!("expected a device"),
    };
    let i = dev.interface_descriptor(&[9, 4, 1, 2, 3, 255, 1, 2, 7]).unwrap();
    assert_eq!(i.interface_number, 1);
    assert_eq!(i.alternate_setting, 2);
    assert_eq!(i.interface_class, 255);
    assert_eq!(i.index_interface, 7);
    assert_eq!(dev.interface_descriptor(&[9, 4]), Err(UsbError::ShortRead { expected: 9, actual: 2 }));
    assert_eq!(dev.device_descriptor(&DEVICE).unwrap().id_vendor, 0x1d6b);
    assert!(dev.device_descriptor(&DEVICE[..10]).is_err());
}
