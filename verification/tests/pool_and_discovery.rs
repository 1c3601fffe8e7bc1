//! The connection pool's sharing and eviction behaviour, the uuid-set
//! discovery heuristic, and the feature-flag bitset.
use soundcore_lib::btaddr::BluetoothAdrr;
use soundcore_lib::discovery::{
    find_characteristic_by_uuid, find_service_by_uuid, find_soundcore_uuid_set,
    resolve_connection_endpoints, resolve_uuid_set, BLEConnectionUuidSet, CharacteristicModel,
    ServiceModel, EXCLUDED_SERVICE_GENERIC_ACCESS,
};
use soundcore_lib::error::SoundcoreError;
use soundcore_lib::feature_flags::{all_flags, flag_bit, FeatureFlagSet, SoundcoreFeatureFlags};
use soundcore_lib::pool::ConnectionPool;

fn characteristic(uuid: u128, read: bool, write: bool, wwr: bool, notify: bool) -> CharacteristicModel {
    CharacteristicModel { uuid, read, write, write_without_response: wwr, notify }
}

#[test]
fn pool_identity_two_callers_share_one_connection() {
    let addr = BluetoothAdrr::from_str("00:11:22:33:44:55").unwrap();
    let mut pool = ConnectionPool::new();
    // First caller: miss, connect outside the pool, install the result.
    assert_eq!(pool.acquire(&addr), None);
    pool.insert(&addr, 41);
    // Second caller: hit, no second connect, the same connection id.
    assert_eq!(pool.acquire(&addr), Some(41));
    assert_eq!(pool.len(), 1);
}

#[test]
fn pool_eviction_after_last_release() {
    let addr = BluetoothAdrr::from_str("00:11:22:33:44:55").unwrap();
    let mut pool = ConnectionPool::new();
    assert_eq!(pool.acquire(&addr), None);
    pool.insert(&addr, 7);
    assert_eq!(pool.acquire(&addr), Some(7));
    // Two handles out: the first release keeps the connection alive.
    assert!(!pool.release(&addr));
    // The last release evicts and asks the caller to close the transport.
    assert!(pool.release(&addr));
    assert_eq!(pool.len(), 0);
    // A later call misses and performs a fresh connect.
    assert_eq!(pool.acquire(&addr), None);
    pool.insert(&addr, 8);
    assert_eq!(pool.acquire(&addr), Some(8));
}

#[test]
fn pool_addresses_are_independent() {
    let a = BluetoothAdrr::from_str("00:11:22:33:44:55").unwrap();
    let b = BluetoothAdrr::from_str("66:77:88:99:AA:BB").unwrap();
    let mut pool = ConnectionPool::new();
    pool.insert(&a, 1);
    pool.insert(&b, 2);
    assert_eq!(pool.acquire(&a), Some(1));
    assert_eq!(pool.acquire(&b), Some(2));
    assert!(!pool.release(&a));
    assert!(pool.release(&a));
    assert_eq!(pool.acquire(&a), None);
    assert_eq!(pool.acquire(&b), Some(2));
}

#[test]
fn pool_release_of_unknown_address_is_a_no_op() {
    let a = BluetoothAdrr::from_str("00:11:22:33:44:55").unwrap();
    let mut pool = ConnectionPool::new();
    assert!(!pool.release(&a));
    assert_eq!(pool.len(), 0);
}

#[test]
fn discovery_takes_first_qualifying_service() {
    let noise = ServiceModel {
        uuid: EXCLUDED_SERVICE_GENERIC_ACCESS,
        characteristics: vec![
            characteristic(1, true, false, false, true),
            characteristic(2, false, true, true, false),
        ],
    };
    let too_small = ServiceModel { uuid: 100, characteristics: vec![characteristic(3, true, false, false, true)] };
    let vendor = ServiceModel {
        uuid: 200,
        characteristics: vec![
            characteristic(10, false, true, true, false),
            characteristic(11, true, false, false, true),
        ],
    };
    let services = vec![noise, too_small, vendor];
    let found = find_soundcore_uuid_set(&services).unwrap();
    assert_eq!(
        found,
        BLEConnectionUuidSet { service_uuid: 200, read_uuid: 11, write_uuid: 10 }
    );
}

#[test]
fn discovery_needs_both_characteristics() {
    let read_only = ServiceModel {
        uuid: 300,
        characteristics: vec![
            characteristic(1, true, false, false, true),
            characteristic(2, true, false, false, false),
        ],
    };
    assert_eq!(find_soundcore_uuid_set(&vec![read_only]), None);
    assert_eq!(find_soundcore_uuid_set(&Vec::new()), None);
}

#[test]
fn resolve_uuid_set_reports_what_is_missing() {
    let svc = ServiceModel {
        uuid: 200,
        characteristics: vec![
            characteristic(10, false, true, true, false),
            characteristic(11, true, false, false, true),
        ],
    };
    let services = vec![svc];
    let good = BLEConnectionUuidSet { service_uuid: 200, read_uuid: 11, write_uuid: 10 };
    let read = resolve_uuid_set(&services, &good).unwrap();
    assert_eq!(read.uuid, 11);
    let wrong_service = BLEConnectionUuidSet { service_uuid: 999, read_uuid: 11, write_uuid: 10 };
    assert_eq!(
        resolve_uuid_set(&services, &wrong_service).unwrap_err(),
        SoundcoreError::MissingService
    );
    let wrong_read = BLEConnectionUuidSet { service_uuid: 200, read_uuid: 12, write_uuid: 10 };
    assert_eq!(
        resolve_uuid_set(&services, &wrong_read).unwrap_err(),
        SoundcoreError::MissingCharacteristic
    );
    let wrong_write = BLEConnectionUuidSet { service_uuid: 200, read_uuid: 11, write_uuid: 12 };
    assert_eq!(
        resolve_uuid_set(&services, &wrong_write).unwrap_err(),
        SoundcoreError::MissingCharacteristic
    );
}

#[test]
fn connection_endpoints_from_discovery_or_supplied_set() {
    let vendor = ServiceModel {
        uuid: 200,
        characteristics: vec![
            characteristic(10, false, true, true, false),
            characteristic(11, true, false, false, true),
        ],
    };
    let services = vec![vendor];
    // Nothing supplied: discovery fills the set in.
    let (found, read) = resolve_connection_endpoints(&services, None).unwrap();
    assert_eq!(found, BLEConnectionUuidSet { service_uuid: 200, read_uuid: 11, write_uuid: 10 });
    assert_eq!(read.uuid, 11);
    // A supplied set is resolved, not rediscovered.
    let supplied = BLEConnectionUuidSet { service_uuid: 999, read_uuid: 11, write_uuid: 10 };
    assert_eq!(
        resolve_connection_endpoints(&services, Some(supplied)).unwrap_err(),
        SoundcoreError::MissingService
    );
    // No candidate at all: the heuristic reports a missing uuid set.
    assert_eq!(
        resolve_connection_endpoints(&Vec::new(), None).unwrap_err(),
        SoundcoreError::MissingUuidSet
    );
}

#[test]
fn find_helpers_return_first_match() {
    let svc_a = ServiceModel { uuid: 5, characteristics: vec![characteristic(1, true, false, false, false)] };
    let svc_b = ServiceModel { uuid: 5, characteristics: vec![characteristic(2, true, false, false, false)] };
    let services = vec![svc_a, svc_b];
    let found = find_service_by_uuid(&services, 5).unwrap();
    assert_eq!(found.characteristics[0].uuid, 1);
    assert!(find_service_by_uuid(&services, 6).is_none());
    assert_eq!(find_characteristic_by_uuid(&found, 1).unwrap().uuid, 1);
    assert!(find_characteristic_by_uuid(&found, 9).is_none());
}

#[test]
fn feature_flag_bits_follow_enumeration_order() {
    let flags = all_flags();
    assert_eq!(flags.len(), 13);
    for (i, f) in flags.iter().enumerate() {
        assert_eq!(flag_bit(*f) as usize, i);
    }
}

#[test]
fn feature_flag_set_membership() {
    let mut fs = FeatureFlagSet::empty();
    assert!(!fs.contains(SoundcoreFeatureFlags::DRC));
    fs.insert(SoundcoreFeatureFlags::DRC);
    fs.insert(SoundcoreFeatureFlags::EQ);
    assert!(fs.contains(SoundcoreFeatureFlags::DRC));
    assert!(fs.contains(SoundcoreFeatureFlags::EQ));
    assert!(!fs.contains(SoundcoreFeatureFlags::GAME_MODE));
    assert_eq!(fs.bits, (1 << 6) | (1 << 4));
}
