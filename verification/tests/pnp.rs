use bluegauge::pnp::{
    classic_info_from_pnp, format_bluetooth_address, get_pnp_devices_info, parse_hex_u64,
    PnpDeviceRecord, PnpPropertyValue,
};
use bluegauge::bluetooth::BluetoothType;

#[test]
fn parses_hexadecimal_addresses() {
    assert_eq!(parse_hex_u64("0A2B"), Some(0x0A2B));
    assert_eq!(parse_hex_u64("a2b"), Some(0xA2B));
    assert_eq!(parse_hex_u64("001122334455"), Some(0x001122334455));
    assert_eq!(parse_hex_u64("FFFFFFFFFFFFFFFF"), Some(u64::MAX));
    assert_eq!(parse_hex_u64("0"), Some(0));
}

#[test]
fn rejects_texts_that_are_no_hexadecimal_number() {
    assert_eq!(parse_hex_u64(""), None);
    assert_eq!(parse_hex_u64("12G4"), None);
    assert_eq!(parse_hex_u64(" 12"), None);
    assert_eq!(parse_hex_u64("-1"), None);
    // one digit past 64 bits
    assert_eq!(parse_hex_u64("10000000000000000"), None);
}

#[test]
fn formats_addresses_as_twelve_padded_hex_digits() {
    assert_eq!(format_bluetooth_address(0), "000000000000");
    assert_eq!(format_bluetooth_address(0x123456789AB), "0123456789AB");
    assert_eq!(format_bluetooth_address(0x001122334455), "001122334455");
    // an address wider than twelve digits keeps all its digits
    assert_eq!(format_bluetooth_address(0x123456789ABCDEF0), "123456789ABCDEF0");
}

#[test]
fn parsing_then_formatting_restores_a_padded_address() {
    let text = "0123456789AB";
    let value = parse_hex_u64(text).unwrap();
    assert_eq!(format_bluetooth_address(value), text);
}

fn record(id: &str, battery: Option<PnpPropertyValue>, address: Option<PnpPropertyValue>) -> PnpDeviceRecord {
    PnpDeviceRecord {
        device_instance_id: id.to_string(),
        battery_property: battery,
        address_property: address,
    }
}

#[test]
fn collects_records_with_battery_and_parsable_address() {
    let records = vec![
        record(
            "BTHENUM\\DEV_001122334455",
            Some(PnpPropertyValue::Byte(80)),
            Some(PnpPropertyValue::Text("001122334455".to_string())),
        ),
        // no battery property: skipped
        record(
            "BTHENUM\\DEV_0011223344FF",
            None,
            Some(PnpPropertyValue::Text("0011223344FF".to_string())),
        ),
        // address text does not parse: skipped
        record(
            "BTHENUM\\DEV_BROKEN",
            Some(PnpPropertyValue::Byte(50)),
            Some(PnpPropertyValue::Text("not hex".to_string())),
        ),
        // battery property of the wrong shape: skipped
        record(
            "BTHENUM\\DEV_TEXTBATTERY",
            Some(PnpPropertyValue::Text("80".to_string())),
            Some(PnpPropertyValue::Text("0011223344AA".to_string())),
        ),
    ];
    let map = get_pnp_devices_info(&records);
    assert_eq!(map.len(), 1);
    let info = map.get(&0x001122334455).unwrap();
    assert_eq!(info.battery, 80);
    assert_eq!(info.instance_id, "BTHENUM\\DEV_001122334455");
    assert!(map.get(&0x0011223344FF).is_none());
}

#[test]
fn a_later_record_for_the_same_address_wins() {
    let records = vec![
        record(
            "FIRST",
            Some(PnpPropertyValue::Byte(10)),
            Some(PnpPropertyValue::Text("0A".to_string())),
        ),
        record(
            "SECOND",
            Some(PnpPropertyValue::Byte(20)),
            Some(PnpPropertyValue::Text("0A".to_string())),
        ),
    ];
    let map = get_pnp_devices_info(&records);
    assert_eq!(map.len(), 1);
    let info = map.get(&0x0A).unwrap();
    assert_eq!(info.battery, 20);
    assert_eq!(info.instance_id, "SECOND");
}

#[test]
fn builds_the_classic_record_from_the_battery_map() {
    let records = vec![record(
        "BTHENUM\\DEV_001122334455",
        Some(PnpPropertyValue::Byte(64)),
        Some(PnpPropertyValue::Text("001122334455".to_string())),
    )];
    let map = get_pnp_devices_info(&records);
    let info = classic_info_from_pnp("headset".to_string(), 0x001122334455, true, &map)
        .expect("the address is in the map");
    assert_eq!(info.name, "headset");
    assert_eq!(info.battery, 64);
    assert!(info.status);
    assert_eq!(info.address, 0x001122334455);
    assert_eq!(
        info.kind,
        BluetoothType::Classic("BTHENUM\\DEV_001122334455".to_string())
    );
    // a device the enumeration did not yield is dropped, not half-filled
    assert_eq!(classic_info_from_pnp("ghost".to_string(), 0xDEAD, true, &map), None);
}
