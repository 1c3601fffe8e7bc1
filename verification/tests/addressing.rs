//! Address parsing and formatting, and the mock scanner.
use soundcore_lib::ble::{BLEDeviceDescriptor, BtlePlugScanner, MockBLEScanner};
use soundcore_lib::btaddr::BluetoothAdrr;
use soundcore_lib::error::SoundcoreError;

#[test]
fn parse_canonical_address() {
    let a = BluetoothAdrr::from_str("00:11:22:33:44:55").unwrap();
    assert_eq!(a.address, [0x00, 0x11, 0x22, 0x33, 0x44, 0x55]);
}

#[test]
fn parse_accepts_both_cases() {
    let a = BluetoothAdrr::from_str("aa:bb:cc:dd:ee:ff").unwrap();
    let b = BluetoothAdrr::from_str("AA:BB:CC:DD:EE:FF").unwrap();
    assert_eq!(a, b);
    assert_eq!(a.address, [0xAA, 0xBB, 0xCC, 0xDD, 0xEE, 0xFF]);
}

#[test]
fn parse_rejects_malformed_addresses() {
    assert_eq!(BluetoothAdrr::from_str(""), Err(SoundcoreError::ParseError));
    assert_eq!(BluetoothAdrr::from_str("00:11:22:33:44"), Err(SoundcoreError::ParseError));
    assert_eq!(BluetoothAdrr::from_str("00:11:22:33:44:5"), Err(SoundcoreError::ParseError));
    assert_eq!(BluetoothAdrr::from_str("0g:11:22:33:44:55"), Err(SoundcoreError::ParseError));
    assert_eq!(BluetoothAdrr::from_str("00-11-22-33-44-55"), Err(SoundcoreError::ParseError));
    assert_eq!(BluetoothAdrr::from_str("00:11:22:33:44:55:"), Err(SoundcoreError::ParseError));
}

#[test]
fn format_round_trips_uppercase() {
    let a = BluetoothAdrr::from_str("ac:12:2f:6a:d2:07").unwrap();
    let shown = a.to_string();
    assert_eq!(shown, "AC:12:2F:6A:D2:07");
    assert_eq!(BluetoothAdrr::from_str(&shown).unwrap(), a);
}

#[test]
fn mock_scanner_returns_fixed_device() {
    let scanner = MockBLEScanner;
    let list = scanner.scan().unwrap();
    assert_eq!(list.len(), 1);
    assert_eq!(list[0].addr, BluetoothAdrr::from_str("00:11:22:33:44:55").unwrap());
    assert_eq!(list[0].name, "Mock Soundcore Device");
}

#[test]
fn descriptor_takes_advertised_name_or_empty() {
    let addr = BluetoothAdrr::from_str("00:11:22:33:44:55").unwrap();
    let named = BtlePlugScanner::peripheral_to_descriptor(addr, Some("Liberty".to_string()));
    assert_eq!(named.name, "Liberty");
    let blank = BtlePlugScanner::peripheral_to_descriptor(addr, None);
    assert_eq!(blank.name, "");
}

#[test]
fn name_resolution_only_fills_blanks() {
    let addr = BluetoothAdrr::from_str("00:11:22:33:44:55").unwrap();
    let named = BLEDeviceDescriptor::new(addr, "Liberty".to_string());
    let kept = BtlePlugScanner::resolve_name_for_descriptor(named, Some("Platform".to_string()));
    assert_eq!(kept.name, "Liberty");
    let blank = BLEDeviceDescriptor::new(addr, String::new());
    let filled = BtlePlugScanner::resolve_name_for_descriptor(blank, Some("Platform".to_string()));
    assert_eq!(filled.name, "Platform");
    let still_blank = BLEDeviceDescriptor::new(addr, String::new());
    let unresolved = BtlePlugScanner::resolve_name_for_descriptor(still_blank, None);
    assert_eq!(unresolved.name, "");
}

#[test]
fn dedup_keeps_first_descriptor_per_address() {
    let a = BluetoothAdrr::from_str("00:11:22:33:44:55").unwrap();
    let b = BluetoothAdrr::from_str("66:77:88:99:AA:BB").unwrap();
    let list = vec![
        BLEDeviceDescriptor::new(a, "first".to_string()),
        BLEDeviceDescriptor::new(b, "other".to_string()),
        BLEDeviceDescriptor::new(a, "second".to_string()),
    ];
    let out = BtlePlugScanner::dedup_descriptors(&list);
    assert_eq!(out.len(), 2);
    let first = out.iter().find(|d| d.addr == a).unwrap();
    assert_eq!(first.name, "first");
    assert!(out.iter().any(|d| d.addr == b));
}
