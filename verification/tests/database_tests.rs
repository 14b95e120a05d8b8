use bacnet_device::database::{
    setup_analog_input, setup_analog_output, setup_analog_value, setup_binary_input,
    setup_bitstring_value, setup_character_string_value, setup_date_time_value, setup_device,
    setup_integer_value, setup_large_analog_value, setup_multistate_input,
    setup_network_port, setup_octet_string_value, setup_positive_integer_value,
};

#[test]
fn device_configuration() {
    let device = setup_device();
    assert_eq!(device.object_name, "Red King Device");
    assert_eq!(device.instance, 389001);
    assert_eq!(device.utc_offset, 0);
    assert_eq!(device.current_time_offset, 0);
    assert_eq!(device.description, "CAS BACnet Rust Server Device");
    assert_eq!(device.system_status, 0);
}

#[test]
fn analog_input_configuration() {
    let analog_input = setup_analog_input();
    assert_eq!(analog_input.object_name, "Dungeness AnalogInput");
    assert_eq!(analog_input.instance, 0);
    assert_eq!(analog_input.present_value.thousandths, 1001);
    assert_eq!(analog_input.cov_incurment.thousandths, 2000);
    assert_eq!(analog_input.reliability, 0);
    assert_eq!(analog_input.description, "Incurments once every 5 seconds");
    assert_eq!(analog_input.proprietary_year, 122);
    assert_eq!(analog_input.proprietary_month, 3);
    assert_eq!(analog_input.proprietary_day, 20);
    assert_eq!(analog_input.proprietary_weekday, 7);
    assert_eq!(analog_input.proprietary_hour, 12);
    assert_eq!(analog_input.proprietary_minute, 34);
    assert_eq!(analog_input.proprietary_second, 23);
    assert_eq!(analog_input.proprietary_hundredth_seconds, 45);
    assert_eq!(analog_input.proprietary_real.thousandths, 1230);
    assert_eq!(analog_input.proprietary_array_of_real.len(), 5);
    for real in &analog_input.proprietary_array_of_real {
        assert_eq!(real.thousandths, 1000);
    }
}

#[test]
fn analog_output_configuration() {
    let analog_output = setup_analog_output();
    assert_eq!(analog_output.object_name, "Snow AnalogOutput");
    assert_eq!(analog_output.instance, 1);
    assert_eq!(analog_output.priority_array_nulls, [true; 16]);
    assert_eq!(analog_output.priority_array_values, [false; 16]);
}

#[test]
fn analog_value_configuration() {
    let analog_value = setup_analog_value();
    assert_eq!(analog_value.object_name, "Flower AnalogValue");
    assert_eq!(analog_value.instance, 2);
    assert_eq!(analog_value.present_value.thousandths, 5430);
    assert_eq!(analog_value.max_pres_value.thousandths, 1000000);
    assert_eq!(analog_value.min_pres_value.thousandths, -1000000);
}

#[test]
fn binary_input_configuration() {
    let binary_input = setup_binary_input();
    assert_eq!(binary_input.object_name, "Chesapeake Blue BinaryInput");
    assert_eq!(binary_input.instance, 3);
    assert!(binary_input.present_value);
    assert_eq!(binary_input.description, "I am an optional property!");
}

#[test]
fn multistate_input_configuration() {
    let multistate_input = setup_multistate_input();
    assert_eq!(multistate_input.object_name, "Pea MultiStateInput");
    assert_eq!(multistate_input.instance, 13);
    assert_eq!(multistate_input.present_value, 1);
    assert_eq!(multistate_input.state_text, vec!["one", "two", "three"]);
}

#[test]
fn bitstring_value_configuration() {
    let bitstring_value = setup_bitstring_value();
    assert_eq!(bitstring_value.object_name, "Yeti BitstringValue");
    assert_eq!(bitstring_value.instance, 39);
    assert_eq!(bitstring_value.present_value, vec![true, false, false, false]);
    assert_eq!(bitstring_value.bit_text, vec!["A", "B", "C", "D"]);
}

#[test]
fn character_string_value_configuration() {
    let character_string_value = setup_character_string_value();
    assert_eq!(character_string_value.object_name, "Coconut CharacterStringValue");
    assert_eq!(character_string_value.instance, 40);
    assert_eq!(character_string_value.present_value, "Hello World!");
}

#[test]
fn integer_value_configuration() {
    let integer_value = setup_integer_value();
    assert_eq!(integer_value.object_name, "Spider IntegerValue");
    assert_eq!(integer_value.instance, 45);
    assert_eq!(integer_value.present_value, 42);
}

#[test]
fn large_analog_value_configuration() {
    let large_analog_value = setup_large_analog_value();
    assert_eq!(large_analog_value.object_name, "Tanner LargeAnalogValue");
    assert_eq!(large_analog_value.instance, 46);
    assert_eq!(large_analog_value.present_value.thousandths, 123456789850);
}

#[test]
fn octet_string_value_configuration() {
    let octet_string_value = setup_octet_string_value();
    assert_eq!(octet_string_value.object_name, "Brown Box OctetStringValue");
    assert_eq!(octet_string_value.instance, 47);
    assert_eq!(octet_string_value.present_value, vec![1, 2, 3, 4, 5, 6, 7]);
}

#[test]
fn positive_integer_value_configuration() {
    let positive_integer_value = setup_positive_integer_value();
    assert_eq!(positive_integer_value.object_name, "Strawberry PositiveIntegerValue");
    assert_eq!(positive_integer_value.instance, 48);
    assert_eq!(positive_integer_value.present_value, 12345);
}

#[test]
fn network_port_configuration() {
    let network_port = setup_network_port();
    assert_eq!(network_port.object_name, "Mitten NetworkPort");
    assert_eq!(network_port.instance, 56);
    assert_eq!(network_port.bacnet_ip_udp_port, 47808);
    assert_eq!(network_port.ip_address, [198, 168, 68, 105]);
    assert_eq!(network_port.ip_address_length, 6);
    assert_eq!(network_port.ip_default_gateway, [198, 168, 68, 126]);
    assert_eq!(network_port.ip_default_gateway_length, 4);
    assert_eq!(network_port.ip_subnet_mask, [255, 255, 255, 0]);
    assert_eq!(network_port.ip_subnet_mask_length, 4);
    assert!(network_port.ip_dns_servers.is_empty());
    assert_eq!(network_port.ip_dns_server_length, 4);
    assert_eq!(network_port.broadcast_ip_address, [198, 168, 68, 105]);
    assert!(!network_port.changes_pending);
    assert_eq!(network_port.fd_bbmd_address_host_type, 1);
    assert_eq!(network_port.fd_bbmd_address_host_ip, [198, 168, 68, 105]);
    assert_eq!(network_port.fd_bbmd_address_port, 47809);
    assert_eq!(network_port.fd_subscription_lifetime, 3600);
}

#[test]
fn date_time_value_configuration() {
    let date_time_value = setup_date_time_value();
    assert_eq!(date_time_value.object_name, "Atlantic Rock DateTimeValue");
    assert_eq!(date_time_value.instance, 44);
    assert_eq!(date_time_value.present_value_year, 122);
    assert_eq!(date_time_value.present_value_month, 1);
    assert_eq!(date_time_value.present_value_day, 28);
    assert_eq!(date_time_value.present_value_weekday, 5);
    assert_eq!(date_time_value.present_value_hour, 16);
    assert_eq!(date_time_value.present_value_minute, 54);
    assert_eq!(date_time_value.present_value_second, 47);
    assert_eq!(date_time_value.present_value_hundredth_seconds, 55);
}
