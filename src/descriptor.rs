use vstd::prelude::*;
use crate::error::UsbError;

verus! {

/// Size in bytes of a device descriptor record.
pub const DEVICE_DESCRIPTOR_SIZE: usize = 18;

/// Size in bytes of an interface descriptor record.
pub const INTERFACE_DESCRIPTOR_SIZE: usize = 9;

/// The standard USB device descriptor, field for field as the device reports it.
#[derive(Clone, Copy, Debug, Hash, PartialEq, Eq, Structural)]
pub struct DeviceDescriptor {
    pub length: u8,
    pub descriptor_type: u8,
    pub bcd_usb: u16,
    pub device_class: u8,
    pub device_sub_class: u8,
    pub device_protocol: u8,
    pub max_packet_size_0: u8,
    pub id_vendor: u16,
    pub id_product: u16,
    pub bcd_device: u16,
    pub manufacturer: u8,
    pub product: u8,
    pub serial_number: u8,
    pub num_configurations: u8,
}

/// The standard USB interface descriptor, field for field.
#[derive(Clone, Copy, Debug, Hash, PartialEq, Eq, Structural)]
pub struct InterfaceDescriptor {
    pub length: u8,
    pub descriptor_type: u8,
    pub interface_number: u8,
    pub alternate_setting: u8,
    pub num_endpoints: u8,
    pub interface_class: u8,
    pub interface_subclass: u8,
    pub interface_protocol: u8,
    pub index_interface: u8,
}

/// The 16-bit value stored little-endian in bytes `lo`, `hi`, as USB
/// descriptors store their multi-byte fields.
pub open spec fn le16(lo: u8, hi: u8) -> u16 {
    (lo as int + 256 * (hi as int)) as u16
}

/// The device descriptor held in the first eighteen bytes of `b`.
pub open spec fn device_descriptor_of(b: Seq<u8>) -> DeviceDescriptor {
    DeviceDescriptor {
        length: b[0],
        descriptor_type: b[1],
        bcd_usb: le16(b[2], b[3]),
        device_class: b[4],
        device_sub_class: b[5],
        device_protocol: b[6],
        max_packet_size_0: b[7],
        id_vendor: le16(b[8], b[9]),
        id_product: le16(b[10], b[11]),
        bcd_device: le16(b[12], b[13]),
        manufacturer: b[14],
        product: b[15],
        serial_number: b[16],
        num_configurations: b[17],
    }
}

/// The interface descriptor held in the first nine bytes of `b`.
pub open spec fn interface_descriptor_of(b: Seq<u8>) -> InterfaceDescriptor {
    InterfaceDescriptor {
        length: b[0],
        descriptor_type: b[1],
        interface_number: b[2],
        alternate_setting: b[3],
        num_endpoints: b[4],
        interface_class: b[5],
        interface_subclass: b[6],
        interface_protocol: b[7],
        index_interface: b[8],
    }
}

/// Reads a little-endian 16-bit field.
fn read_le16(lo: u8, hi: u8) -> (r: u16)
    ensures
        r == le16(lo, hi),
{
    assert(0 <= hi as int * 256 <= 255 * 256) by (nonlinear_arith)
        requires
            0 <= hi <= 255,
    ;
    lo as u16 + (hi as u16) * 256
}

impl DeviceDescriptor {
    /// What decoding the bytes `b` gives.
    pub open spec fn decode_spec(b: Seq<u8>) -> Result<DeviceDescriptor, UsbError> {
        if b.len() < DEVICE_DESCRIPTOR_SIZE {
            Err(UsbError::ShortRead { expected: DEVICE_DESCRIPTOR_SIZE, actual: b.len() as usize })
        } else {
            Ok(device_descriptor_of(b))
        }
    }

    /// The record read from a device's descriptor file. Fewer bytes than the
    /// record size give `ShortRead` and no record; bytes past the record are
    /// not looked at.
    pub fn decode(bytes: &[u8]) -> (r: Result<DeviceDescriptor, UsbError>)
        ensures
            r == Self::decode_spec(bytes@),
    {
        if bytes.len() < DEVICE_DESCRIPTOR_SIZE {
            return Err(UsbError::ShortRead { expected: DEVICE_DESCRIPTOR_SIZE, actual: bytes.len() });
        }
        Ok(DeviceDescriptor {
            length: bytes[0],
            descriptor_type: bytes[1],
            bcd_usb: read_le16(bytes[2], bytes[3]),
            device_class: bytes[4],
            device_sub_class: bytes[5],
            device_protocol: bytes[6],
            max_packet_size_0: bytes[7],
            id_vendor: read_le16(bytes[8], bytes[9]),
            id_product: read_le16(bytes[10], bytes[11]),
            bcd_device: read_le16(bytes[12], bytes[13]),
            manufacturer: bytes[14],
            product: bytes[15],
            serial_number: bytes[16],
            num_configurations: bytes[17],
        })
    }
}

impl InterfaceDescriptor {
    /// What decoding the bytes `b` gives.
    pub open spec fn decode_spec(b: Seq<u8>) -> Result<InterfaceDescriptor, UsbError> {
        if b.len() < INTERFACE_DESCRIPTOR_SIZE {
            Err(UsbError::ShortRead { expected: INTERFACE_DESCRIPTOR_SIZE, actual: b.len() as usize })
        } else {
            Ok(interface_descriptor_of(b))
        }
    }

    /// The record read from an interface descriptor file. Fewer bytes than
    /// the record size give `ShortRead` and no record; bytes past the record
    /// are not looked at.
    pub fn decode(bytes: &[u8]) -> (r: Result<InterfaceDescriptor, UsbError>)
        ensures
            r == Self::decode_spec(bytes@),
    {
        if bytes.len() < INTERFACE_DESCRIPTOR_SIZE {
            return Err(UsbError::ShortRead { expected: INTERFACE_DESCRIPTOR_SIZE, actual: bytes.len() });
        }
        Ok(InterfaceDescriptor {
            length: bytes[0],
            descriptor_type: bytes[1],
            interface_number: bytes[2],
            alternate_setting: bytes[3],
            num_endpoints: bytes[4],
            interface_class: bytes[5],
            interface_subclass: bytes[6],
            interface_protocol: bytes[7],
            index_interface: bytes[8],
        })
    }
}

} // verus!
