//! Protocol constants: BACnet object-type codes, property identifiers,
//! service codes and the transport's network-type tag, as the engine
//! boundary uses them.

use vstd::prelude::*;

verus! {

// Object type codes.
pub const OBJECT_TYPE_ANALOG_INPUT: u16 = 0;
pub const OBJECT_TYPE_ANALOG_OUTPUT: u16 = 1;
pub const OBJECT_TYPE_ANALOG_VALUE: u16 = 2;
pub const OBJECT_TYPE_BINARY_INPUT: u16 = 3;
pub const OBJECT_TYPE_DEVICE: u16 = 8;
pub const OBJECT_TYPE_MULTI_STATE_INPUT: u16 = 13;
pub const OBJECT_TYPE_BITSTRING_VALUE: u16 = 39;
pub const OBJECT_TYPE_CHARACTERSTRING_VALUE: u16 = 40;
pub const OBJECT_TYPE_DATE_TIME_VALUE: u16 = 44;
pub const OBJECT_TYPE_INTEGER_VALUE: u16 = 45;
pub const OBJECT_TYPE_LARGE_ANALOG_VALUE: u16 = 46;
pub const OBJECT_TYPE_OCTETSTRING_VALUE: u16 = 47;
pub const OBJECT_TYPE_POSITIVE_INTEGER_VALUE: u16 = 48;
pub const OBJECT_TYPE_NETWORK_PORT: u16 = 56;

// Property identifiers.
pub const PROPERTY_IDENTIFIER_APPLICATION_SOFTWARE_VERSION: u32 = 12;
pub const PROPERTY_IDENTIFIER_COV_INCURMENT: u32 = 22;
pub const PROPERTY_IDENTIFIER_DESCRIPTION: u32 = 28;
pub const PROPERTY_IDENTIFIER_OBJECT_NAME: u32 = 77;
pub const PROPERTY_IDENTIFIER_PRESENT_VALUE: u32 = 85;
pub const PROPERTY_IDENTIFIER_RELIABILITY: u32 = 103;
pub const PROPERTY_IDENTIFIER_SYSTEM_STATUS: u32 = 112;
pub const PROPERTY_IDENTIFIER_UTC_OFFSET: u32 = 119;

// Services the device may enable.
pub const SERVICE_READ_PROPERTY_MULTIPLE: u8 = 14;
pub const SERVICE_I_AM: u8 = 26;

// Transport network type: only IP is served.
pub const NETWORK_TYPE_IP: u8 = 0;

/// Largest message the transport buffers: the maximum BACnet/IP APDU
/// over an Ethernet MTU.
pub const MAX_RENDER_BUFFER_LENGTH: usize = 1497;

/// Instance number of the one device object.
pub const DEVICE_INSTANCE: u32 = 389001;

/// The version text the device reports as its application software version.
pub fn application_version() -> (version: &'static str)
    ensures
        version@ == "0.0.1"@,
{
    "0.0.1"
}

} // verus!
