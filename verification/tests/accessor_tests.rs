use bacnet_device::accessors::{
    callback_get_character_string, callback_get_enumerated, callback_get_real,
    callback_get_signed_integer, callback_get_system_time, get_object_name,
};
use bacnet_device::database::{
    setup_database, ExampleDatabaseCharacterStringValue, ExampleDatabaseObject, ObjectType,
};
use bacnet_device::store::ObjectStore;
use bacnet_device::Real;

fn chars_with_terminator(text: &str) -> Vec<char> {
    let mut out: Vec<char> = text.chars().collect();
    out.push('\0');
    out
}

#[test]
fn object_name_fits_strictly_below_capacity() {
    let database = setup_database();
    // "Dungeness AnalogInput" is 21 characters: capacity 22 accepts it.
    let mut value: Vec<char> = vec!['x'];
    let mut count: u32 = 0;
    let ok = get_object_name(389001, 0, 0, &mut value, &mut count, 22, &database);
    assert!(ok);
    assert_eq!(value, chars_with_terminator("Dungeness AnalogInput"));
    assert_eq!(count, 21);
}

#[test]
fn object_name_at_capacity_fails_closed() {
    let database = setup_database();
    // Capacity equal to the length leaves no room for the terminator.
    let mut value: Vec<char> = vec!['x'];
    let mut count: u32 = 7;
    let ok = get_object_name(389001, 0, 0, &mut value, &mut count, 21, &database);
    assert!(!ok);
    assert_eq!(value, vec!['x']);
    assert_eq!(count, 7);
}

#[test]
fn twenty_char_name_needs_capacity_twenty_one() {
    // A name of length 20 fails at capacity 20 and succeeds at 21,
    // reporting 20 elements plus a terminator in the buffer.
    let mut store = ObjectStore::new();
    let name = "exactly-twenty-chars";
    assert_eq!(name.len(), 20);
    store.insert(
        ObjectType::CharacterStringValue,
        1,
        ExampleDatabaseObject::CharacterStringValue(ExampleDatabaseCharacterStringValue {
            object_name: name.to_string(),
            instance: 1,
            present_value: String::new(),
        }),
    );
    let mut value: Vec<char> = Vec::new();
    let mut count: u32 = 0;
    let ok = get_object_name(389001, 40, 1, &mut value, &mut count, 20, &store);
    assert!(!ok);
    assert!(value.is_empty());
    assert_eq!(count, 0);
    let ok = get_object_name(389001, 40, 1, &mut value, &mut count, 21, &store);
    assert!(ok);
    assert_eq!(count, 20);
    assert_eq!(value, chars_with_terminator(name));
}

#[test]
fn object_name_of_absent_object_fails() {
    let database = setup_database();
    let mut value: Vec<char> = Vec::new();
    let mut count: u32 = 0;
    assert!(!get_object_name(389001, 0, 999, &mut value, &mut count, 100, &database));
    assert!(!get_object_name(389000, 8, 0, &mut value, &mut count, 100, &database));
    // An object type outside the text protocol's dispatch is unsupported.
    assert!(!get_object_name(389001, 3, 3, &mut value, &mut count, 100, &database));
    assert!(value.is_empty());
    assert_eq!(count, 0);
}

#[test]
fn character_string_serves_descriptions() {
    let database = setup_database();
    let mut value: Vec<char> = Vec::new();
    let mut count: u32 = 0;
    let mut encoding: u8 = 9;
    let ok = callback_get_character_string(
        389001, 8, 389001, 28, &mut value, &mut count, 100, &mut encoding, false, 0, &database,
    );
    assert!(ok);
    assert_eq!(value, chars_with_terminator("CAS BACnet Rust Server Device"));
    assert_eq!(count, 29);
    assert_eq!(encoding, 9);

    let ok = callback_get_character_string(
        389001, 0, 0, 28, &mut value, &mut count, 100, &mut encoding, false, 0, &database,
    );
    assert!(ok);
    assert_eq!(value, chars_with_terminator("Incurments once every 5 seconds"));
    assert_eq!(count, 31);
}

#[test]
fn character_string_serves_present_value() {
    let database = setup_database();
    let mut value: Vec<char> = Vec::new();
    let mut count: u32 = 0;
    let mut encoding: u8 = 0;
    let ok = callback_get_character_string(
        389001, 40, 40, 85, &mut value, &mut count, 100, &mut encoding, false, 0, &database,
    );
    assert!(ok);
    assert_eq!(value, chars_with_terminator("Hello World!"));
    assert_eq!(count, 12);
}

#[test]
fn character_string_serves_application_software_version() {
    let database = setup_database();
    let mut value: Vec<char> = Vec::new();
    let mut count: u32 = 0;
    let mut encoding: u8 = 0;
    let ok = callback_get_character_string(
        389001, 8, 389001, 12, &mut value, &mut count, 100, &mut encoding, false, 0, &database,
    );
    assert!(ok);
    assert_eq!(value, chars_with_terminator("0.0.1"));
    assert_eq!(count, 5);
}

#[test]
fn character_string_unknown_property_fails() {
    let database = setup_database();
    let mut value: Vec<char> = vec!['x'];
    let mut count: u32 = 7;
    let mut encoding: u8 = 0;
    // Reliability is not a text property.
    let ok = callback_get_character_string(
        389001, 0, 0, 103, &mut value, &mut count, 100, &mut encoding, false, 0, &database,
    );
    assert!(!ok);
    assert_eq!(value, vec!['x']);
    assert_eq!(count, 7);
}

#[test]
fn text_too_long_for_capacity_leaves_buffer_untouched() {
    let database = setup_database();
    let mut value: Vec<char> = vec!['a', 'b'];
    let mut count: u32 = 3;
    let mut encoding: u8 = 0;
    // "Hello World!" has 12 characters; capacity 12 leaves no terminator room.
    let ok = callback_get_character_string(
        389001, 40, 40, 85, &mut value, &mut count, 12, &mut encoding, false, 0, &database,
    );
    assert!(!ok);
    assert_eq!(value, vec!['a', 'b']);
    assert_eq!(count, 3);
}

#[test]
fn enumerated_serves_reliability_and_rejects_absent_instance() {
    let database = setup_database();
    let mut value: u32 = 77;
    let ok = callback_get_enumerated(389001, 0, 0, 103, &mut value, false, 0, &database);
    assert!(ok);
    assert_eq!(value, 0);
    let mut other: u32 = 77;
    let ok = callback_get_enumerated(389001, 0, 999, 103, &mut other, false, 0, &database);
    assert!(!ok);
    assert_eq!(other, 77);
}

#[test]
fn enumerated_serves_system_status() {
    let database = setup_database();
    let mut value: u32 = 77;
    let ok = callback_get_enumerated(389001, 8, 389001, 112, &mut value, false, 0, &database);
    assert!(ok);
    assert_eq!(value, 0);
    let ok = callback_get_enumerated(389001, 8, 389001, 103, &mut value, false, 0, &database);
    assert!(!ok);
}

#[test]
fn real_serves_present_value_and_cov_increment() {
    let database = setup_database();
    let mut value = Real { thousandths: 0 };
    let ok = callback_get_real(389001, 0, 0, 85, &mut value, false, 0, &database);
    assert!(ok);
    assert_eq!(value.thousandths, 1001);
    let ok = callback_get_real(389001, 0, 0, 22, &mut value, false, 0, &database);
    assert!(ok);
    assert_eq!(value.thousandths, 2000);
    let mut untouched = Real { thousandths: 5 };
    let ok = callback_get_real(389001, 2, 2, 85, &mut untouched, false, 0, &database);
    assert!(!ok);
    assert_eq!(untouched.thousandths, 5);
}

#[test]
fn signed_integer_serves_utc_offset() {
    let database = setup_database();
    let mut value: i32 = -9;
    let ok = callback_get_signed_integer(389001, 8, 389001, 119, &mut value, false, 0, &database);
    assert!(ok);
    assert_eq!(value, 0);
    let mut other: i32 = -9;
    let ok = callback_get_signed_integer(389000, 8, 389000, 119, &mut other, false, 0, &database);
    assert!(!ok);
    assert_eq!(other, -9);
    let ok = callback_get_signed_integer(389001, 0, 0, 119, &mut other, false, 0, &database);
    assert!(!ok);
}

#[test]
fn system_time_passes_clock_through() {
    let database = setup_database();
    assert_eq!(callback_get_system_time(&database, 0), 0);
    assert_eq!(callback_get_system_time(&database, 1700000000), 1700000000);
}
