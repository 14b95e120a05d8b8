//! The accessor protocol: typed property reads dispatched by
//! `(property identifier, object type)` over the object store.
//!
//! Each operation receives an address tuple and a caller-owned output
//! location, writes at most one value, and reports success as a boolean.
//! An unknown `(type, property)` pair and an absent object are "not found",
//! reported as `false`, never as a fault. A text property that does not fit
//! the caller's capacity fails closed: nothing is written at all.

use vstd::prelude::*;
use crate::constants::{
    application_version,
    OBJECT_TYPE_ANALOG_INPUT,
    OBJECT_TYPE_CHARACTERSTRING_VALUE,
    OBJECT_TYPE_DEVICE,
    PROPERTY_IDENTIFIER_APPLICATION_SOFTWARE_VERSION,
    PROPERTY_IDENTIFIER_COV_INCURMENT,
    PROPERTY_IDENTIFIER_DESCRIPTION,
    PROPERTY_IDENTIFIER_OBJECT_NAME,
    PROPERTY_IDENTIFIER_PRESENT_VALUE,
    PROPERTY_IDENTIFIER_RELIABILITY,
    PROPERTY_IDENTIFIER_SYSTEM_STATUS,
    PROPERTY_IDENTIFIER_UTC_OFFSET,
};
use crate::database::{ExampleDatabaseObject, ObjectType};
use crate::fixedpoint::Real;
use crate::store::ObjectStore;

verus! {

/// What the store maps keys to, as the accessor contracts see it.
pub type DatabaseView = Map<(ObjectType, u32), ExampleDatabaseObject>;

/// The object name the protocol would serve for this address, if any:
/// the name of the device, an analog input, or a character-string value.
pub open spec fn spec_name_source(
    m: DatabaseView,
    device_instance: u32,
    object_type: u16,
    object_instance: u32,
) -> Option<Seq<char>> {
    if object_type == OBJECT_TYPE_DEVICE && m.contains_key((ObjectType::Device, device_instance)) {
        match m[(ObjectType::Device, device_instance)] {
            ExampleDatabaseObject::Device(o) => Some(o.object_name@),
            _ => None,
        }
    } else if object_type == OBJECT_TYPE_ANALOG_INPUT && m.contains_key(
        (ObjectType::AnalogInput, object_instance),
    ) {
        match m[(ObjectType::AnalogInput, object_instance)] {
            ExampleDatabaseObject::AnalogInput(o) => Some(o.object_name@),
            _ => None,
        }
    } else if object_type == OBJECT_TYPE_CHARACTERSTRING_VALUE && m.contains_key(
        (ObjectType::CharacterStringValue, object_instance),
    ) {
        match m[(ObjectType::CharacterStringValue, object_instance)] {
            ExampleDatabaseObject::CharacterStringValue(o) => Some(o.object_name@),
            _ => None,
        }
    } else {
        None
    }
}

/// The text the protocol would serve for this address and property, if any.
pub open spec fn spec_character_string_source(
    m: DatabaseView,
    device_instance: u32,
    object_type: u16,
    object_instance: u32,
    property_identifier: u32,
) -> Option<Seq<char>> {
    if property_identifier == PROPERTY_IDENTIFIER_OBJECT_NAME {
        spec_name_source(m, device_instance, object_type, object_instance)
    } else if property_identifier == PROPERTY_IDENTIFIER_DESCRIPTION {
        if object_type == OBJECT_TYPE_DEVICE && m.contains_key(
            (ObjectType::Device, device_instance),
        ) {
            match m[(ObjectType::Device, device_instance)] {
                ExampleDatabaseObject::Device(o) => Some(o.description@),
                _ => None,
            }
        } else if object_type == OBJECT_TYPE_ANALOG_INPUT && m.contains_key(
            (ObjectType::AnalogInput, object_instance),
        ) {
            match m[(ObjectType::AnalogInput, object_instance)] {
                ExampleDatabaseObject::AnalogInput(o) => Some(o.description@),
                _ => None,
            }
        } else {
            None
        }
    } else if property_identifier == PROPERTY_IDENTIFIER_PRESENT_VALUE {
        if object_type == OBJECT_TYPE_CHARACTERSTRING_VALUE && m.contains_key(
            (ObjectType::CharacterStringValue, object_instance),
        ) {
            match m[(ObjectType::CharacterStringValue, object_instance)] {
                ExampleDatabaseObject::CharacterStringValue(o) => Some(o.present_value@),
                _ => None,
            }
        } else {
            None
        }
    } else if object_type == OBJECT_TYPE_DEVICE && property_identifier
        == PROPERTY_IDENTIFIER_APPLICATION_SOFTWARE_VERSION {
        Some("0.0.1"@)
    } else {
        None
    }
}

/// The enumerated value the protocol would serve, if any: an analog
/// input's reliability or the device's system status.
pub open spec fn spec_enumerated_source(
    m: DatabaseView,
    device_instance: u32,
    object_type: u16,
    object_instance: u32,
    property_identifier: u32,
) -> Option<u32> {
    if property_identifier == PROPERTY_IDENTIFIER_RELIABILITY {
        if object_type == OBJECT_TYPE_ANALOG_INPUT && m.contains_key(
            (ObjectType::AnalogInput, object_instance),
        ) {
            match m[(ObjectType::AnalogInput, object_instance)] {
                ExampleDatabaseObject::AnalogInput(o) => Some(o.reliability),
                _ => None,
            }
        } else {
            None
        }
    } else if property_identifier == PROPERTY_IDENTIFIER_SYSTEM_STATUS && object_type
        == OBJECT_TYPE_DEVICE {
        if m.contains_key((ObjectType::Device, device_instance)) {
            match m[(ObjectType::Device, device_instance)] {
                ExampleDatabaseObject::Device(o) => Some(o.system_status),
                _ => None,
            }
        } else {
            None
        }
    } else {
        None
    }
}

/// The real value the protocol would serve, if any: an analog input's
/// present value or its change-of-value increment.
pub open spec fn spec_real_source(
    m: DatabaseView,
    device_instance: u32,
    object_type: u16,
    object_instance: u32,
    property_identifier: u32,
) -> Option<Real> {
    if property_identifier == PROPERTY_IDENTIFIER_PRESENT_VALUE {
        if object_type == OBJECT_TYPE_ANALOG_INPUT && m.contains_key(
            (ObjectType::AnalogInput, object_instance),
        ) {
            match m[(ObjectType::AnalogInput, object_instance)] {
                ExampleDatabaseObject::AnalogInput(o) => Some(o.present_value),
                _ => None,
            }
        } else {
            None
        }
    } else if property_identifier == PROPERTY_IDENTIFIER_COV_INCURMENT && object_type
        == OBJECT_TYPE_ANALOG_INPUT {
        if m.contains_key((ObjectType::AnalogInput, object_instance)) {
            match m[(ObjectType::AnalogInput, object_instance)] {
                ExampleDatabaseObject::AnalogInput(o) => Some(o.cov_incurment),
                _ => None,
            }
        } else {
            None
        }
    } else {
        None
    }
}

/// The signed-integer value the protocol would serve, if any: the
/// device's UTC offset.
pub open spec fn spec_signed_integer_source(
    m: DatabaseView,
    device_instance: u32,
    object_type: u16,
    object_instance: u32,
    property_identifier: u32,
) -> Option<i32> {
    if property_identifier == PROPERTY_IDENTIFIER_UTC_OFFSET && object_type == OBJECT_TYPE_DEVICE {
        if m.contains_key((ObjectType::Device, device_instance)) {
            match m[(ObjectType::Device, device_instance)] {
                ExampleDatabaseObject::Device(o) => Some(o.utc_offset),
                _ => None,
            }
        } else {
            None
        }
    } else {
        None
    }
}

/// Copies `text` and a terminator into the caller's buffer and reports
/// the element count, the text's length.
fn copy_text_with_terminator(
    text: &str,
    value: &mut Vec<char>,
    value_element_count: &mut u32,
    max_element_count: u32,
)
    requires
        text@.len() < max_element_count,
    ensures
        final(value)@ == text@.push('\0'),
        *final(value_element_count) == text@.len(),
{
    let n = text.unicode_len();
    value.clear();
    let mut i: usize = 0;
    while i < n
        invariant
            n == text@.len(),
            i <= n,
            value@ =~= text@.subrange(0, i as int),
        decreases n - i,
    {
        value.push(text.get_char(i));
        i = i + 1;
    }
    value.push('\0');
    proof {
        assert(value@ =~= text@.push('\0'));
    }
    *value_element_count = n as u32;
}

/// Serves an object's name into the caller's buffer, with a terminator,
/// when the addressed object exists and the name fits strictly below the
/// caller's capacity; otherwise reports failure and writes nothing.
pub fn get_object_name(
    device_instance: u32,
    object_type: u16,
    object_instance: u32,
    value: &mut Vec<char>,
    value_element_count: &mut u32,
    max_element_count: u32,
    database: &ObjectStore,
) -> (success: bool)
    ensures
        ({
            let source = spec_name_source(database@, device_instance, object_type, object_instance);
            &&& success == (source matches Some(name) && name.len() < max_element_count)
            &&& success ==> final(value)@ == source.unwrap().push('\0')
                && *final(value_element_count) == source.unwrap().len()
            &&& !success ==> final(value)@ == old(value)@
                && *final(value_element_count) == *old(value_element_count)
        }),
{
    if object_type == OBJECT_TYPE_DEVICE {
        match database.get(ObjectType::Device, device_instance) {
            Some(ExampleDatabaseObject::Device(device)) => {
                if device.object_name.as_str().unicode_len() < max_element_count as usize {
                    copy_text_with_terminator(
                        device.object_name.as_str(),
                        value,
                        value_element_count,
                        max_element_count,
                    );
                    return true;
                }
                false
            },
            _ => false,
        }
    } else if object_type == OBJECT_TYPE_ANALOG_INPUT {
        match database.get(ObjectType::AnalogInput, object_instance) {
            Some(ExampleDatabaseObject::AnalogInput(analog_input)) => {
                if analog_input.object_name.as_str().unicode_len() < max_element_count as usize {
                    copy_text_with_terminator(
                        analog_input.object_name.as_str(),
                        value,
                        value_element_count,
                        max_element_count,
                    );
                    return true;
                }
                false
            },
            _ => false,
        }
    } else if object_type == OBJECT_TYPE_CHARACTERSTRING_VALUE {
        match database.get(ObjectType::CharacterStringValue, object_instance) {
            Some(ExampleDatabaseObject::CharacterStringValue(character_string_value)) => {
                if character_string_value.object_name.as_str().unicode_len()
                    < max_element_count as usize {
                    copy_text_with_terminator(
                        character_string_value.object_name.as_str(),
                        value,
                        value_element_count,
                        max_element_count,
                    );
                    return true;
                }
                false
            },
            _ => false,
        }
    } else {
        false
    }
}

/// Serves a text-valued property: an object name, a description, a
/// character-string present value, or the application software version.
/// Fails closed when the text would not fit strictly below the caller's
/// capacity, leaving the buffer untouched. The encoding tag is never
/// written.
#[allow(unused_variables)]
pub fn callback_get_character_string(
    device_instance: u32,
    object_type: u16,
    object_instance: u32,
    property_identifier: u32,
    value: &mut Vec<char>,
    value_element_count: &mut u32,
    max_element_count: u32,
    encoding_type: &mut u8,
    use_array_index: bool,
    property_array_index: u32,
    database: &ObjectStore,
) -> (success: bool)
    ensures
        ({
            let source = spec_character_string_source(
                database@,
                device_instance,
                object_type,
                object_instance,
                property_identifier,
            );
            &&& success == (source matches Some(text) && text.len() < max_element_count)
            &&& success ==> final(value)@ == source.unwrap().push('\0')
                && *final(value_element_count) == source.unwrap().len()
            &&& !success ==> final(value)@ == old(value)@
                && *final(value_element_count) == *old(value_element_count)
            &&& *final(encoding_type) == *old(encoding_type)
        }),
{
    if property_identifier == PROPERTY_IDENTIFIER_OBJECT_NAME {
        get_object_name(
            device_instance,
            object_type,
            object_instance,
            value,
            value_element_count,
            max_element_count,
            database,
        )
    } else if property_identifier == PROPERTY_IDENTIFIER_DESCRIPTION {
        if object_type == OBJECT_TYPE_DEVICE {
            match database.get(ObjectType::Device, device_instance) {
                Some(ExampleDatabaseObject::Device(device)) => {
                    if device.description.as_str().unicode_len() < max_element_count as usize {
                        copy_text_with_terminator(
                            device.description.as_str(),
                            value,
                            value_element_count,
                            max_element_count,
                        );
                        return true;
                    }
                    false
                },
                _ => false,
            }
        } else if object_type == OBJECT_TYPE_ANALOG_INPUT {
            match database.get(ObjectType::AnalogInput, object_instance) {
                Some(ExampleDatabaseObject::AnalogInput(analog_input)) => {
                    if analog_input.description.as_str().unicode_len()
                        < max_element_count as usize {
                        copy_text_with_terminator(
                            analog_input.description.as_str(),
                            value,
                            value_element_count,
                            max_element_count,
                        );
                        return true;
                    }
                    false
                },
                _ => false,
            }
        } else {
            false
        }
    } else if property_identifier == PROPERTY_IDENTIFIER_PRESENT_VALUE {
        if object_type == OBJECT_TYPE_CHARACTERSTRING_VALUE {
            match database.get(ObjectType::CharacterStringValue, object_instance) {
                Some(ExampleDatabaseObject::CharacterStringValue(character_string_value)) => {
                    if character_string_value.present_value.as_str().unicode_len()
                        < max_element_count as usize {
                        copy_text_with_terminator(
                            character_string_value.present_value.as_str(),
                            value,
                            value_element_count,
                            max_element_count,
                        );
                        return true;
                    }
                    false
                },
                _ => false,
            }
        } else {
            false
        }
    } else if object_type == OBJECT_TYPE_DEVICE && property_identifier
        == PROPERTY_IDENTIFIER_APPLICATION_SOFTWARE_VERSION {
        let version = application_version();
        if version.unicode_len() < max_element_count as usize {
            copy_text_with_terminator(version, value, value_element_count, max_element_count);
            return true;
        }
        false
    } else {
        false
    }
}

/// Serves an enumerated property: an analog input's reliability or the
/// device's system status. On success exactly one value is written.
#[allow(unused_variables)]
pub fn callback_get_enumerated(
    device_instance: u32,
    object_type: u16,
    object_instance: u32,
    property_identifier: u32,
    value: &mut u32,
    use_array_index: bool,
    property_array_index: u32,
    database: &ObjectStore,
) -> (success: bool)
    ensures
        ({
            let source = spec_enumerated_source(
                database@,
                device_instance,
                object_type,
                object_instance,
                property_identifier,
            );
            &&& success == (source is Some)
            &&& success ==> *final(value) == source.unwrap()
            &&& !success ==> *final(value) == *old(value)
        }),
{
    if property_identifier == PROPERTY_IDENTIFIER_RELIABILITY {
        if object_type == OBJECT_TYPE_ANALOG_INPUT {
            match database.get(ObjectType::AnalogInput, object_instance) {
                Some(ExampleDatabaseObject::AnalogInput(analog_input)) => {
                    *value = analog_input.reliability;
                    true
                },
                _ => false,
            }
        } else {
            false
        }
    } else if property_identifier == PROPERTY_IDENTIFIER_SYSTEM_STATUS && object_type
        == OBJECT_TYPE_DEVICE {
        match database.get(ObjectType::Device, device_instance) {
            Some(ExampleDatabaseObject::Device(device)) => {
                *value = device.system_status;
                true
            },
            _ => false,
        }
    } else {
        false
    }
}

/// Serves a real-valued property: an analog input's present value or its
/// change-of-value increment. On success exactly one value is written.
#[allow(unused_variables)]
pub fn callback_get_real(
    device_instance: u32,
    object_type: u16,
    object_instance: u32,
    property_identifier: u32,
    value: &mut Real,
    use_array_index: bool,
    property_array_index: u32,
    database: &ObjectStore,
) -> (success: bool)
    ensures
        ({
            let source = spec_real_source(
                database@,
                device_instance,
                object_type,
                object_instance,
                property_identifier,
            );
            &&& success == (source is Some)
            &&& success ==> *final(value) == source.unwrap()
            &&& !success ==> *final(value) == *old(value)
        }),
{
    if property_identifier == PROPERTY_IDENTIFIER_PRESENT_VALUE {
        if object_type == OBJECT_TYPE_ANALOG_INPUT {
            match database.get(ObjectType::AnalogInput, object_instance) {
                Some(ExampleDatabaseObject::AnalogInput(analog_input)) => {
                    *value = analog_input.present_value;
                    true
                },
                _ => false,
            }
        } else {
            false
        }
    } else if property_identifier == PROPERTY_IDENTIFIER_COV_INCURMENT && object_type
        == OBJECT_TYPE_ANALOG_INPUT {
        match database.get(ObjectType::AnalogInput, object_instance) {
            Some(ExampleDatabaseObject::AnalogInput(analog_input)) => {
                *value = analog_input.cov_incurment;
                true
            },
            _ => false,
        }
    } else {
        false
    }
}

/// Serves a signed-integer property: the device's UTC offset. On success
/// exactly one value is written.
#[allow(unused_variables)]
pub fn callback_get_signed_integer(
    device_instance: u32,
    object_type: u16,
    object_instance: u32,
    property_identifier: u32,
    value: &mut i32,
    use_array_index: bool,
    property_array_index: u32,
    database: &ObjectStore,
) -> (success: bool)
    ensures
        ({
            let source = spec_signed_integer_source(
                database@,
                device_instance,
                object_type,
                object_instance,
                property_identifier,
            );
            &&& success == (source is Some)
            &&& success ==> *final(value) == source.unwrap()
            &&& !success ==> *final(value) == *old(value)
        }),
{
    if property_identifier == PROPERTY_IDENTIFIER_UTC_OFFSET && object_type == OBJECT_TYPE_DEVICE {
        match database.get(ObjectType::Device, device_instance) {
            Some(ExampleDatabaseObject::Device(device)) => {
                *value = device.utc_offset;
                true
            },
            _ => false,
        }
    } else {
        false
    }
}

/// Reports the clock the engine should run on. The wall-clock seconds are
/// read outside and handed in; the device's time offset is an extension
/// point and is not applied, so the reading passes through unchanged.
#[allow(unused_variables)]
pub fn callback_get_system_time(database: &ObjectStore, now_seconds: u64) -> (r: u64)
    ensures
        r == now_seconds,
{
    now_seconds
}

} // verus!
