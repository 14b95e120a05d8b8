//! The object database: one tagged record per BACnet object, addressed by
//! object type and instance number.
//!
//! Each record carries an object name, an instance number and the attributes
//! of its kind. Analog present values are held as [`Real`] fixed-point
//! values so that every statement about them is exact. The `setup_*`
//! functions build the compiled-in object set; `initial_config` on each
//! record type states exactly what they build.

use vstd::prelude::*;
use crate::fixedpoint::Real;
use crate::store::ObjectStore;

verus! {

/// Number of slots in the priority array of an output object.
pub const PRIORITY_ARRAY_LENGTH: usize = 16;

/// The closed set of object kinds this device serves.
#[derive(Clone, Copy, PartialEq, Eq, Structural, Debug)]
pub enum ObjectType {
    AnalogInput,
    AnalogOutput,
    AnalogValue,
    BinaryInput,
    Device,
    MultiStateInput,
    BitstringValue,
    CharacterStringValue,
    IntegerValue,
    LargeAnalogValue,
    OctetStringValue,
    PositiveIntegerValue,
    NetworkPort,
    DateTimeValue,
}

/// One record per object kind; the variant is the object's type tag.
pub enum ExampleDatabaseObject {
    AnalogInput(ExampleDatabaseAnalogInput),
    AnalogOutput(ExampleDatabaseAnalogOutput),
    AnalogValue(ExampleDatabaseAnalogValue),
    BinaryInput(ExampleDatabaseBinaryInput),
    Device(ExampleDatabaseDevice),
    MultiStateInput(ExampleDatabaseMultiStateInput),
    BitstringValue(ExampleDatabaseBitstringValue),
    CharacterStringValue(ExampleDatabaseCharacterStringValue),
    IntegerValue(ExampleDatabaseIntegerValue),
    LargeAnalogValue(ExampleDatabaseLargeAnalogValue),
    OctetStringValue(ExampleDatabaseOctetStringValue),
    PositiveIntegerValue(ExampleDatabasePositiveIntegerValue),
    NetworkPort(ExampleDatabaseNetworkPort),
    DateTimeValue(ExampleDatabaseDateTimeValue),
}

pub struct ExampleDatabaseAnalogInput {
    pub object_name: String,
    pub instance: u32,
    pub present_value: Real,
    pub cov_incurment: Real,
    pub reliability: u32,
    pub description: String,
    pub proprietary_year: u8,
    pub proprietary_month: u8,
    pub proprietary_day: u8,
    pub proprietary_weekday: u8,
    pub proprietary_hour: u8,
    pub proprietary_minute: u8,
    pub proprietary_second: u8,
    pub proprietary_hundredth_seconds: u8,
    pub proprietary_real: Real,
    pub proprietary_array_of_real: Vec<Real>,
}

pub struct ExampleDatabaseAnalogOutput {
    pub object_name: String,
    pub instance: u32,
    pub priority_array_nulls: [bool; PRIORITY_ARRAY_LENGTH],
    pub priority_array_values: [bool; PRIORITY_ARRAY_LENGTH],
}

pub struct ExampleDatabaseAnalogValue {
    pub object_name: String,
    pub instance: u32,
    pub present_value: Real,
    pub max_pres_value: Real,
    pub min_pres_value: Real,
}

pub struct ExampleDatabaseBinaryInput {
    pub object_name: String,
    pub instance: u32,
    pub present_value: bool,
    pub description: String,
}

pub struct ExampleDatabaseDevice {
    pub object_name: String,
    pub instance: u32,
    pub utc_offset: i32,
    pub current_time_offset: i32,
    pub description: String,
    pub system_status: u32,
}

pub struct ExampleDatabaseMultiStateInput {
    pub object_name: String,
    pub instance: u32,
    pub present_value: u32,
    pub state_text: Vec<String>,
}

pub struct ExampleDatabaseBitstringValue {
    pub object_name: String,
    pub instance: u32,
    pub present_value: Vec<bool>,
    pub bit_text: Vec<String>,
}

pub struct ExampleDatabaseCharacterStringValue {
    pub object_name: String,
    pub instance: u32,
    pub present_value: String,
}

pub struct ExampleDatabaseIntegerValue {
    pub object_name: String,
    pub instance: u32,
    pub present_value: i32,
}

pub struct ExampleDatabaseLargeAnalogValue {
    pub object_name: String,
    pub instance: u32,
    pub present_value: Real,
}

pub struct ExampleDatabaseOctetStringValue {
    pub object_name: String,
    pub instance: u32,
    pub present_value: Vec<u8>,
}

pub struct ExampleDatabasePositiveIntegerValue {
    pub object_name: String,
    pub instance: u32,
    pub present_value: u32,
}

pub struct ExampleDatabaseNetworkPort {
    pub object_name: String,
    pub instance: u32,
    pub bacnet_ip_udp_port: u16,
    pub ip_address: [u8; 4],
    pub ip_address_length: u8,
    pub ip_default_gateway: [u8; 4],
    pub ip_default_gateway_length: u8,
    pub ip_subnet_mask: [u8; 4],
    pub ip_subnet_mask_length: u8,
    pub ip_dns_servers: Vec<u8>,
    pub ip_dns_server_length: u8,
    pub broadcast_ip_address: [u8; 4],
    pub changes_pending: bool,
    pub fd_bbmd_address_host_type: u8,
    pub fd_bbmd_address_host_ip: [u8; 4],
    pub fd_bbmd_address_port: u16,
    pub fd_subscription_lifetime: u16,
}

pub struct ExampleDatabaseDateTimeValue {
    pub object_name: String,
    pub instance: u32,
    pub present_value_year: u8,
    pub present_value_month: u8,
    pub present_value_day: u8,
    pub present_value_weekday: u8,
    pub present_value_hour: u8,
    pub present_value_minute: u8,
    pub present_value_second: u8,
    pub present_value_hundredth_seconds: u8,
}

impl ExampleDatabaseDevice {
    /// The compiled-in configuration of the one device object.
    pub open spec fn initial_config(self) -> bool {
        &&& self.object_name@ == "Red King Device"@
        &&& self.instance == 389001
        &&& self.utc_offset == 0
        &&& self.current_time_offset == 0
        &&& self.description@ == "CAS BACnet Rust Server Device"@
        &&& self.system_status == 0
    }
}

impl ExampleDatabaseAnalogInput {
    /// The compiled-in configuration of the analog input.
    pub open spec fn initial_config(self) -> bool {
        &&& self.object_name@ == "Dungeness AnalogInput"@
        &&& self.instance == 0
        &&& self.present_value.thousandths == 1001
        &&& self.cov_incurment.thousandths == 2000
        &&& self.reliability == 0
        &&& self.description@ == "Incurments once every 5 seconds"@
        &&& self.proprietary_year == 122
        &&& self.proprietary_month == 3
        &&& self.proprietary_day == 20
        &&& self.proprietary_weekday == 7
        &&& self.proprietary_hour == 12
        &&& self.proprietary_minute == 34
        &&& self.proprietary_second == 23
        &&& self.proprietary_hundredth_seconds == 45
        &&& self.proprietary_real.thousandths == 1230
        &&& self.proprietary_array_of_real@.len() == 5
        &&& forall|i: int|
            0 <= i < 5 ==> self.proprietary_array_of_real@[i].thousandths == 1000
    }
}

impl ExampleDatabaseAnalogOutput {
    /// The compiled-in configuration of the analog output: all sixteen
    /// priority slots empty.
    pub open spec fn initial_config(self) -> bool {
        &&& self.object_name@ == "Snow AnalogOutput"@
        &&& self.instance == 1
        &&& forall|i: int|
            0 <= i < PRIORITY_ARRAY_LENGTH ==> self.priority_array_nulls@[i] == true
        &&& forall|i: int|
            0 <= i < PRIORITY_ARRAY_LENGTH ==> self.priority_array_values@[i] == false
    }
}

impl ExampleDatabaseAnalogValue {
    /// The compiled-in configuration of the analog value.
    pub open spec fn initial_config(self) -> bool {
        &&& self.object_name@ == "Flower AnalogValue"@
        &&& self.instance == 2
        &&& self.present_value.thousandths == 5430
        &&& self.max_pres_value.thousandths == 1000000
        &&& self.min_pres_value.thousandths == -1000000
    }
}

impl ExampleDatabaseBinaryInput {
    /// The compiled-in configuration of the binary input.
    pub open spec fn initial_config(self) -> bool {
        &&& self.object_name@ == "Chesapeake Blue BinaryInput"@
        &&& self.instance == 3
        &&& self.present_value == true
        &&& self.description@ == "I am an optional property!"@
    }
}

impl ExampleDatabaseMultiStateInput {
    /// The compiled-in configuration of the multi-state input.
    pub open spec fn initial_config(self) -> bool {
        &&& self.object_name@ == "Pea MultiStateInput"@
        &&& self.instance == 13
        &&& self.present_value == 1
        &&& self.state_text@.len() == 3
        &&& self.state_text@[0]@ == "one"@
        &&& self.state_text@[1]@ == "two"@
        &&& self.state_text@[2]@ == "three"@
    }
}

impl ExampleDatabaseBitstringValue {
    /// The compiled-in configuration of the bitstring value.
    pub open spec fn initial_config(self) -> bool {
        &&& self.object_name@ == "Yeti BitstringValue"@
        &&& self.instance == 39
        &&& self.present_value@ == seq![true, false, false, false]
        &&& self.bit_text@.len() == 4
        &&& self.bit_text@[0]@ == "A"@
        &&& self.bit_text@[1]@ == "B"@
        &&& self.bit_text@[2]@ == "C"@
        &&& self.bit_text@[3]@ == "D"@
    }
}

impl ExampleDatabaseCharacterStringValue {
    /// The compiled-in configuration of the character-string value.
    pub open spec fn initial_config(self) -> bool {
        &&& self.object_name@ == "Coconut CharacterStringValue"@
        &&& self.instance == 40
        &&& self.present_value@ == "Hello World!"@
    }
}

impl ExampleDatabaseIntegerValue {
    /// The compiled-in configuration of the integer value.
    pub open spec fn initial_config(self) -> bool {
        &&& self.object_name@ == "Spider IntegerValue"@
        &&& self.instance == 45
        &&& self.present_value == 42
    }
}

impl ExampleDatabaseLargeAnalogValue {
    /// The compiled-in configuration of the large analog value.
    pub open spec fn initial_config(self) -> bool {
        &&& self.object_name@ == "Tanner LargeAnalogValue"@
        &&& self.instance == 46
        &&& self.present_value.thousandths == 123456789850
    }
}

impl ExampleDatabaseOctetStringValue {
    /// The compiled-in configuration of the octet-string value.
    pub open spec fn initial_config(self) -> bool {
        &&& self.object_name@ == "Brown Box OctetStringValue"@
        &&& self.instance == 47
        &&& self.present_value@ == seq![1u8, 2u8, 3u8, 4u8, 5u8, 6u8, 7u8]
    }
}

impl ExampleDatabasePositiveIntegerValue {
    /// The compiled-in configuration of the positive integer value.
    pub open spec fn initial_config(self) -> bool {
        &&& self.object_name@ == "Strawberry PositiveIntegerValue"@
        &&& self.instance == 48
        &&& self.present_value == 12345
    }
}

impl ExampleDatabaseNetworkPort {
    /// The compiled-in configuration of the network port.
    pub open spec fn initial_config(self) -> bool {
        &&& self.object_name@ == "Mitten NetworkPort"@
        &&& self.instance == 56
        &&& self.bacnet_ip_udp_port == 47808
        &&& self.ip_address@ == seq![198u8, 168u8, 68u8, 105u8]
        &&& self.ip_address_length == 6
        &&& self.ip_default_gateway@ == seq![198u8, 168u8, 68u8, 126u8]
        &&& self.ip_default_gateway_length == 4
        &&& self.ip_subnet_mask@ == seq![255u8, 255u8, 255u8, 0u8]
        &&& self.ip_subnet_mask_length == 4
        &&& self.ip_dns_servers@.len() == 0
        &&& self.ip_dns_server_length == 4
        &&& self.broadcast_ip_address@ == seq![198u8, 168u8, 68u8, 105u8]
        &&& self.changes_pending == false
        &&& self.fd_bbmd_address_host_type == 1
        &&& self.fd_bbmd_address_host_ip@ == seq![198u8, 168u8, 68u8, 105u8]
        &&& self.fd_bbmd_address_port == 47809
        &&& self.fd_subscription_lifetime == 3600
    }
}

impl ExampleDatabaseDateTimeValue {
    /// The compiled-in configuration of the date-time value.
    pub open spec fn initial_config(self) -> bool {
        &&& self.object_name@ == "Atlantic Rock DateTimeValue"@
        &&& self.instance == 44
        &&& self.present_value_year == 122
        &&& self.present_value_month == 1
        &&& self.present_value_day == 28
        &&& self.present_value_weekday == 5
        &&& self.present_value_hour == 16
        &&& self.present_value_minute == 54
        &&& self.present_value_second == 47
        &&& self.present_value_hundredth_seconds == 55
    }
}

pub fn setup_device() -> (device: ExampleDatabaseDevice)
    ensures
        device.initial_config(),
{
    ExampleDatabaseDevice {
        object_name: String::from_str("Red King Device"),
        instance: 389001,
        utc_offset: 0,
        current_time_offset: 0,
        description: String::from_str("CAS BACnet Rust Server Device"),
        system_status: 0,
    }
}

pub fn setup_analog_input() -> (analog_input: ExampleDatabaseAnalogInput)
    ensures
        analog_input.initial_config(),
{
    let one = Real { thousandths: 1000 };
    let mut array_of_real: Vec<Real> = Vec::new();
    array_of_real.push(one);
    array_of_real.push(one);
    array_of_real.push(one);
    array_of_real.push(one);
    array_of_real.push(one);
    ExampleDatabaseAnalogInput {
        object_name: String::from_str("Dungeness AnalogInput"),
        instance: 0,
        present_value: Real { thousandths: 1001 },
        cov_incurment: Real { thousandths: 2000 },
        reliability: 0,
        description: String::from_str("Incurments once every 5 seconds"),
        proprietary_year: 122,
        proprietary_month: 3,
        proprietary_day: 20,
        proprietary_weekday: 7,
        proprietary_hour: 12,
        proprietary_minute: 34,
        proprietary_second: 23,
        proprietary_hundredth_seconds: 45,
        proprietary_real: Real { thousandths: 1230 },
        proprietary_array_of_real: array_of_real,
    }
}

pub fn setup_analog_output() -> (analog_output: ExampleDatabaseAnalogOutput)
    ensures
        analog_output.initial_config(),
{
    ExampleDatabaseAnalogOutput {
        object_name: String::from_str("Snow AnalogOutput"),
        instance: 1,
        priority_array_nulls: [
            true,
            true,
            true,
            true,
            true,
            true,
            true,
            true,
            true,
            true,
            true,
            true,
            true,
            true,
            true,
            true,
        ],
        priority_array_values: [
            false,
            false,
            false,
            false,
            false,
            false,
            false,
            false,
            false,
            false,
            false,
            false,
            false,
            false,
            false,
            false,
        ],
    }
}

pub fn setup_analog_value() -> (analog_value: ExampleDatabaseAnalogValue)
    ensures
        analog_value.initial_config(),
{
    ExampleDatabaseAnalogValue {
        object_name: String::from_str("Flower AnalogValue"),
        instance: 2,
        present_value: Real { thousandths: 5430 },
        max_pres_value: Real { thousandths: 1000000 },
        min_pres_value: Real { thousandths: -1000000 },
    }
}

pub fn setup_binary_input() -> (binary_input: ExampleDatabaseBinaryInput)
    ensures
        binary_input.initial_config(),
{
    ExampleDatabaseBinaryInput {
        object_name: String::from_str("Chesapeake Blue BinaryInput"),
        instance: 3,
        present_value: true,
        description: String::from_str("I am an optional property!"),
    }
}

pub fn setup_multistate_input() -> (multistate_input: ExampleDatabaseMultiStateInput)
    ensures
        multistate_input.initial_config(),
{
    let mut state_text: Vec<String> = Vec::new();
    state_text.push(String::from_str("one"));
    state_text.push(String::from_str("two"));
    state_text.push(String::from_str("three"));
    ExampleDatabaseMultiStateInput {
        object_name: String::from_str("Pea MultiStateInput"),
        instance: 13,
        present_value: 1,
        state_text,
    }
}

pub fn setup_bitstring_value() -> (bitstring_value: ExampleDatabaseBitstringValue)
    ensures
        bitstring_value.initial_config(),
{
    let mut present_value: Vec<bool> = Vec::new();
    present_value.push(true);
    present_value.push(false);
    present_value.push(false);
    present_value.push(false);
    let mut bit_text: Vec<String> = Vec::new();
    bit_text.push(String::from_str("A"));
    bit_text.push(String::from_str("B"));
    bit_text.push(String::from_str("C"));
    bit_text.push(String::from_str("D"));
    proof {
        assert(present_value@ =~= seq![true, false, false, false]);
    }
    ExampleDatabaseBitstringValue {
        object_name: String::from_str("Yeti BitstringValue"),
        instance: 39,
        present_value,
        bit_text,
    }
}

pub fn setup_character_string_value() -> (character_string_value:
    ExampleDatabaseCharacterStringValue)
    ensures
        character_string_value.initial_config(),
{
    ExampleDatabaseCharacterStringValue {
        object_name: String::from_str("Coconut CharacterStringValue"),
        instance: 40,
        present_value: String::from_str("Hello World!"),
    }
}

pub fn setup_integer_value() -> (integer_value: ExampleDatabaseIntegerValue)
    ensures
        integer_value.initial_config(),
{
    ExampleDatabaseIntegerValue {
        object_name: String::from_str("Spider IntegerValue"),
        instance: 45,
        present_value: 42,
    }
}

pub fn setup_large_analog_value() -> (large_analog_value: ExampleDatabaseLargeAnalogValue)
    ensures
        large_analog_value.initial_config(),
{
    ExampleDatabaseLargeAnalogValue {
        object_name: String::from_str("Tanner LargeAnalogValue"),
        instance: 46,
        present_value: Real { thousandths: 123456789850 },
    }
}

pub fn setup_octet_string_value() -> (octet_string_value: ExampleDatabaseOctetStringValue)
    ensures
        octet_string_value.initial_config(),
{
    let mut present_value: Vec<u8> = Vec::new();
    present_value.push(0x01);
    present_value.push(0x02);
    present_value.push(0x03);
    present_value.push(0x04);
    present_value.push(0x05);
    present_value.push(0x06);
    present_value.push(0x07);
    proof {
        assert(present_value@ =~= seq![1u8, 2u8, 3u8, 4u8, 5u8, 6u8, 7u8]);
    }
    ExampleDatabaseOctetStringValue {
        object_name: String::from_str("Brown Box OctetStringValue"),
        instance: 47,
        present_value,
    }
}

pub fn setup_positive_integer_value() -> (positive_integer_value:
    ExampleDatabasePositiveIntegerValue)
    ensures
        positive_integer_value.initial_config(),
{
    ExampleDatabasePositiveIntegerValue {
        object_name: String::from_str("Strawberry PositiveIntegerValue"),
        instance: 48,
        present_value: 12345,
    }
}

pub fn setup_network_port() -> (network_port: ExampleDatabaseNetworkPort)
    ensures
        network_port.initial_config(),
{
    let network_port = ExampleDatabaseNetworkPort {
        object_name: String::from_str("Mitten NetworkPort"),
        instance: 56,
        bacnet_ip_udp_port: 47808,
        ip_address: [198, 168, 68, 105],
        ip_address_length: 6,
        ip_default_gateway: [198, 168, 68, 126],
        ip_default_gateway_length: 4,
        ip_subnet_mask: [255, 255, 255, 0],
        ip_subnet_mask_length: 4,
        ip_dns_servers: Vec::new(),
        ip_dns_server_length: 4,
        broadcast_ip_address: [198, 168, 68, 105],
        changes_pending: false,
        fd_bbmd_address_host_type: 1,
        fd_bbmd_address_host_ip: [198, 168, 68, 105],
        fd_bbmd_address_port: 47809,
        fd_subscription_lifetime: 3600,
    };
    proof {
        assert(network_port.ip_address@ =~= seq![198u8, 168u8, 68u8, 105u8]);
        assert(network_port.ip_default_gateway@ =~= seq![198u8, 168u8, 68u8, 126u8]);
        assert(network_port.ip_subnet_mask@ =~= seq![255u8, 255u8, 255u8, 0u8]);
        assert(network_port.broadcast_ip_address@ =~= seq![198u8, 168u8, 68u8, 105u8]);
        assert(network_port.fd_bbmd_address_host_ip@ =~= seq![198u8, 168u8, 68u8, 105u8]);
    }
    network_port
}

pub fn setup_date_time_value() -> (date_time_value: ExampleDatabaseDateTimeValue)
    ensures
        date_time_value.initial_config(),
{
    ExampleDatabaseDateTimeValue {
        object_name: String::from_str("Atlantic Rock DateTimeValue"),
        instance: 44,
        present_value_year: 122,
        present_value_month: 1,
        present_value_day: 28,
        present_value_weekday: 5,
        present_value_hour: 16,
        present_value_minute: 54,
        present_value_second: 47,
        present_value_hundredth_seconds: 55,
    }
}

/// The keys the compiled-in object set occupies.
pub open spec fn initial_keys() -> Set<(ObjectType, u32)> {
    set![
        (ObjectType::Device, 389001u32),
        (ObjectType::AnalogInput, 0u32),
        (ObjectType::AnalogOutput, 1u32),
        (ObjectType::AnalogValue, 2u32),
        (ObjectType::BinaryInput, 3u32),
        (ObjectType::MultiStateInput, 13u32),
        (ObjectType::BitstringValue, 39u32),
        (ObjectType::CharacterStringValue, 40u32),
        (ObjectType::IntegerValue, 45u32),
        (ObjectType::LargeAnalogValue, 46u32),
        (ObjectType::OctetStringValue, 47u32),
        (ObjectType::PositiveIntegerValue, 48u32),
        (ObjectType::NetworkPort, 56u32),
        (ObjectType::DateTimeValue, 44u32),
    ]
}

/// The freshly built store holds exactly the compiled-in object set:
/// one record under each initial key, each in its configured state.
pub open spec fn initial_database(m: Map<(ObjectType, u32), ExampleDatabaseObject>) -> bool {
    &&& m.dom() == initial_keys()
    &&& m[(ObjectType::Device, 389001u32)] matches ExampleDatabaseObject::Device(o)
        && o.initial_config()
    &&& m[(ObjectType::AnalogInput, 0u32)] matches ExampleDatabaseObject::AnalogInput(o)
        && o.initial_config()
    &&& m[(ObjectType::AnalogOutput, 1u32)] matches ExampleDatabaseObject::AnalogOutput(o)
        && o.initial_config()
    &&& m[(ObjectType::AnalogValue, 2u32)] matches ExampleDatabaseObject::AnalogValue(o)
        && o.initial_config()
    &&& m[(ObjectType::BinaryInput, 3u32)] matches ExampleDatabaseObject::BinaryInput(o)
        && o.initial_config()
    &&& m[(ObjectType::MultiStateInput, 13u32)] matches ExampleDatabaseObject::MultiStateInput(o)
        && o.initial_config()
    &&& m[(ObjectType::BitstringValue, 39u32)] matches ExampleDatabaseObject::BitstringValue(o)
        && o.initial_config()
    &&& m[(ObjectType::CharacterStringValue, 40u32)]
        matches ExampleDatabaseObject::CharacterStringValue(o) && o.initial_config()
    &&& m[(ObjectType::IntegerValue, 45u32)] matches ExampleDatabaseObject::IntegerValue(o)
        && o.initial_config()
    &&& m[(ObjectType::LargeAnalogValue, 46u32)]
        matches ExampleDatabaseObject::LargeAnalogValue(o) && o.initial_config()
    &&& m[(ObjectType::OctetStringValue, 47u32)]
        matches ExampleDatabaseObject::OctetStringValue(o) && o.initial_config()
    &&& m[(ObjectType::PositiveIntegerValue, 48u32)]
        matches ExampleDatabaseObject::PositiveIntegerValue(o) && o.initial_config()
    &&& m[(ObjectType::NetworkPort, 56u32)] matches ExampleDatabaseObject::NetworkPort(o)
        && o.initial_config()
    &&& m[(ObjectType::DateTimeValue, 44u32)] matches ExampleDatabaseObject::DateTimeValue(o)
        && o.initial_config()
}

/// Builds the compiled-in object set: the device and one object of each
/// other kind, every record in its configured state.
pub fn setup_database() -> (database: ObjectStore)
    ensures
        initial_database(database@),
{
    let mut database = ObjectStore::new();
    database.insert(
        ObjectType::Device,
        389001,
        ExampleDatabaseObject::Device(setup_device()),
    );
    database.insert(
        ObjectType::AnalogInput,
        0,
        ExampleDatabaseObject::AnalogInput(setup_analog_input()),
    );
    database.insert(
        ObjectType::AnalogOutput,
        1,
        ExampleDatabaseObject::AnalogOutput(setup_analog_output()),
    );
    database.insert(
        ObjectType::AnalogValue,
        2,
        ExampleDatabaseObject::AnalogValue(setup_analog_value()),
    );
    database.insert(
        ObjectType::BinaryInput,
        3,
        ExampleDatabaseObject::BinaryInput(setup_binary_input()),
    );
    database.insert(
        ObjectType::MultiStateInput,
        13,
        ExampleDatabaseObject::MultiStateInput(setup_multistate_input()),
    );
    database.insert(
        ObjectType::BitstringValue,
        39,
        ExampleDatabaseObject::BitstringValue(setup_bitstring_value()),
    );
    database.insert(
        ObjectType::CharacterStringValue,
        40,
        ExampleDatabaseObject::CharacterStringValue(setup_character_string_value()),
    );
    database.insert(
        ObjectType::IntegerValue,
        45,
        ExampleDatabaseObject::IntegerValue(setup_integer_value()),
    );
    database.insert(
        ObjectType::LargeAnalogValue,
        46,
        ExampleDatabaseObject::LargeAnalogValue(setup_large_analog_value()),
    );
    database.insert(
        ObjectType::OctetStringValue,
        47,
        ExampleDatabaseObject::OctetStringValue(setup_octet_string_value()),
    );
    database.insert(
        ObjectType::PositiveIntegerValue,
        48,
        ExampleDatabaseObject::PositiveIntegerValue(setup_positive_integer_value()),
    );
    database.insert(
        ObjectType::NetworkPort,
        56,
        ExampleDatabaseObject::NetworkPort(setup_network_port()),
    );
    database.insert(
        ObjectType::DateTimeValue,
        44,
        ExampleDatabaseObject::DateTimeValue(setup_date_time_value()),
    );
    proof {
        assert(database@.dom() =~= initial_keys());
    }
    database
}

} // verus!
