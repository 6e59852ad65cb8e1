use bluegauge::bluetooth::{merge_scan_results, BluetoothInfo, BluetoothType, ScanError};

#[test]
fn classic_records_carry_their_instance_id() {
    let info = BluetoothInfo {
        name: "headset".to_string(),
        battery: 64,
        status: true,
        address: 0x001122334455,
        kind: BluetoothType::Classic("BTHENUM\\DEV_001122334455".to_string()),
    };
    assert!(info.is_btc());
    assert!(!info.is_ble());
    assert_eq!(
        info.get_btc_instance_id(),
        Some("BTHENUM\\DEV_001122334455".to_string())
    );
}

#[test]
fn low_energy_records_have_no_instance_id() {
    let info = BluetoothInfo {
        name: "buds".to_string(),
        battery: 80,
        status: false,
        address: 7,
        kind: BluetoothType::LowEnergy,
    };
    assert!(info.is_ble());
    assert!(!info.is_btc());
    assert_eq!(info.get_btc_instance_id(), None);
}

#[test]
fn default_record_is_an_empty_low_energy_entry() {
    let info = BluetoothInfo::default();
    assert_eq!(info.name, "");
    assert_eq!(info.battery, 0);
    assert!(!info.status);
    assert_eq!(info.address, 0);
    assert_eq!(info.kind, BluetoothType::LowEnergy);
    assert_eq!(BluetoothType::default(), BluetoothType::LowEnergy);
}

fn dev(address: u64) -> BluetoothInfo {
    BluetoothInfo {
        name: format!("dev{}", address),
        battery: 50,
        status: true,
        address,
        kind: BluetoothType::LowEnergy,
    }
}

#[test]
fn no_paired_devices_is_an_error() {
    assert_eq!(
        merge_scan_results(false, false, None, None),
        Err(ScanError::NoDevicesFound)
    );
}

#[test]
fn a_single_kind_degrades_to_empty_on_a_failed_query() {
    assert_eq!(merge_scan_results(false, true, None, None), Ok(vec![]));
    assert_eq!(merge_scan_results(true, false, None, None), Ok(vec![]));
    assert_eq!(
        merge_scan_results(false, true, None, Some(vec![dev(1)])),
        Ok(vec![dev(1)])
    );
    assert_eq!(
        merge_scan_results(true, false, Some(vec![dev(2)]), None),
        Ok(vec![dev(2)])
    );
}

#[test]
fn both_kinds_combine_and_lose_only_the_failed_half() {
    assert_eq!(
        merge_scan_results(true, true, Some(vec![dev(1)]), Some(vec![dev(2)])),
        Ok(vec![dev(1), dev(2)])
    );
    assert_eq!(
        merge_scan_results(true, true, Some(vec![dev(1)]), None),
        Ok(vec![dev(1)])
    );
    assert_eq!(
        merge_scan_results(true, true, None, Some(vec![dev(2)])),
        Ok(vec![dev(2)])
    );
    assert_eq!(
        merge_scan_results(true, true, None, None),
        Err(ScanError::AllQueriesFailed)
    );
}
