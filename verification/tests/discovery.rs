//! GATT discovery: a complete tree resolves all eight attributes; any
//! missing service or characteristic fails deterministically with
//! `GattAttributeNotFound` naming the absent UUID.

use base_station::error::Error;
use base_station::gatt::{
    find_characteristic, find_gatt_attributes, find_service, CharacteristicSnapshot,
    ServiceSnapshot, BAS_BATTERY_LEVEL_UUID, BAS_UUID, ESS_TEMPERATURE_UUID, ESS_UUID,
    SCS_BATTERY_VOLTAGE_UUID, SCS_ERROR_UUID, SCS_STATUS_UUID, SCS_UUID, WLS_TANK_DEPTH_UUID,
    WLS_UUID, WLS_WATER_DISTANCE_UUID, WLS_WATER_LEVEL_UUID,
};

fn characteristic(uuid: u128, handle: u64) -> CharacteristicSnapshot {
    CharacteristicSnapshot { uuid, handle }
}

/// The full service tree of a healthy sensor, handles 1 through 8.
fn full_tree() -> Vec<ServiceSnapshot> {
    vec![
        ServiceSnapshot {
            uuid: BAS_UUID,
            characteristics: vec![characteristic(BAS_BATTERY_LEVEL_UUID, 1)],
        },
        ServiceSnapshot {
            uuid: ESS_UUID,
            characteristics: vec![characteristic(ESS_TEMPERATURE_UUID, 2)],
        },
        ServiceSnapshot {
            uuid: WLS_UUID,
            characteristics: vec![
                characteristic(WLS_WATER_LEVEL_UUID, 3),
                characteristic(WLS_WATER_DISTANCE_UUID, 4),
                characteristic(WLS_TANK_DEPTH_UUID, 5),
            ],
        },
        ServiceSnapshot {
            uuid: SCS_UUID,
            characteristics: vec![
                characteristic(SCS_ERROR_UUID, 6),
                characteristic(SCS_STATUS_UUID, 7),
                characteristic(SCS_BATTERY_VOLTAGE_UUID, 8),
            ],
        },
    ]
}

#[test]
fn full_tree_resolves_all_eight_attributes() {
    let table = find_gatt_attributes(&full_tree()).unwrap();
    assert_eq!(table.bas_battery_level, 1);
    assert_eq!(table.ess_temperature, 2);
    assert_eq!(table.wls_water_level, 3);
    assert_eq!(table.wls_water_distance, 4);
    assert_eq!(table.wls_tank_depth, 5);
    assert_eq!(table.scs_error, 6);
    assert_eq!(table.scs_status, 7);
    assert_eq!(table.scs_battery_voltage, 8);
}

#[test]
fn missing_service_fails_with_its_uuid() {
    let tree: Vec<ServiceSnapshot> =
        full_tree().into_iter().filter(|s| s.uuid != WLS_UUID).collect();
    match find_gatt_attributes(&tree) {
        Err(Error::GattAttributeNotFound(uuid)) => assert_eq!(uuid, WLS_UUID),
        other => panic!("expected GattAttributeNotFound, got {:?}", other),
    }
}

#[test]
fn missing_characteristic_fails_with_its_uuid() {
    let mut tree = full_tree();
    // Drop the tank depth characteristic out of the water level service.
    tree[2].characteristics.retain(|c| c.uuid != WLS_TANK_DEPTH_UUID);
    match find_gatt_attributes(&tree) {
        Err(Error::GattAttributeNotFound(uuid)) => assert_eq!(uuid, WLS_TANK_DEPTH_UUID),
        other => panic!("expected GattAttributeNotFound, got {:?}", other),
    }
}

#[test]
fn empty_tree_fails_on_the_first_required_service() {
    match find_gatt_attributes(&Vec::new()) {
        Err(Error::GattAttributeNotFound(uuid)) => assert_eq!(uuid, BAS_UUID),
        other => panic!("expected GattAttributeNotFound, got {:?}", other),
    }
}

#[test]
fn discovery_failure_is_deterministic() {
    let mut tree = full_tree();
    tree[3].characteristics.retain(|c| c.uuid != SCS_STATUS_UUID);
    for _ in 0..3 {
        match find_gatt_attributes(&tree) {
            Err(Error::GattAttributeNotFound(uuid)) => assert_eq!(uuid, SCS_STATUS_UUID),
            other => panic!("expected GattAttributeNotFound, got {:?}", other),
        }
    }
}

#[test]
fn find_service_returns_first_match() {
    let tree = full_tree();
    assert_eq!(find_service(&tree, ESS_UUID).unwrap(), 1);
    assert!(matches!(
        find_service(&tree, 0x1234),
        Err(Error::GattAttributeNotFound(0x1234))
    ));
}

#[test]
fn find_characteristic_returns_first_match() {
    let chars = full_tree().remove(2).characteristics;
    assert_eq!(find_characteristic(&chars, WLS_WATER_DISTANCE_UUID).unwrap(), 1);
    assert!(matches!(
        find_characteristic(&chars, SCS_STATUS_UUID),
        Err(Error::GattAttributeNotFound(_))
    ));
}
