//! Session lifecycle: reads refused while not connected, the
//! already-connected connect error swallowed, and the end-to-end cycle.

use base_station::error::{Error, ErrorKind};
use base_station::gatt::{
    CharacteristicSnapshot, ServiceSnapshot, BAS_BATTERY_LEVEL_UUID, BAS_UUID,
    ESS_TEMPERATURE_UUID, ESS_UUID, SCS_BATTERY_VOLTAGE_UUID, SCS_ERROR_UUID, SCS_STATUS_UUID,
    SCS_UUID, WLS_TANK_DEPTH_UUID, WLS_UUID, WLS_WATER_DISTANCE_UUID, WLS_WATER_LEVEL_UUID,
};
use base_station::sensor::{ConnectionState, Field, Sensor};

fn characteristic(uuid: u128, handle: u64) -> CharacteristicSnapshot {
    CharacteristicSnapshot { uuid, handle }
}

fn full_tree() -> Vec<ServiceSnapshot> {
    vec![
        ServiceSnapshot {
            uuid: BAS_UUID,
            characteristics: vec![characteristic(BAS_BATTERY_LEVEL_UUID, 1)],
        },
        ServiceSnapshot {
            uuid: ESS_UUID,
            characteristics: vec![characteristic(ESS_TEMPERATURE_UUID, 2)],
        },
        ServiceSnapshot {
            uuid: WLS_UUID,
            characteristics: vec![
                characteristic(WLS_WATER_LEVEL_UUID, 3),
                characteristic(WLS_WATER_DISTANCE_UUID, 4),
                characteristic(WLS_TANK_DEPTH_UUID, 5),
            ],
        },
        ServiceSnapshot {
            uuid: SCS_UUID,
            characteristics: vec![
                characteristic(SCS_ERROR_UUID, 6),
                characteristic(SCS_STATUS_UUID, 7),
                characteristic(SCS_BATTERY_VOLTAGE_UUID, 8),
            ],
        },
    ]
}

/// Drives a fresh session through connect and discovery over a full tree.
fn connected_sensor() -> Sensor {
    let mut sensor = Sensor::new();
    sensor.start_connect();
    sensor.finish_connect(Ok(())).unwrap();
    sensor.finish_discovery(&full_tree()).unwrap();
    assert_eq!(sensor.current_state(), ConnectionState::Connected);
    sensor
}

#[test]
fn every_field_read_fails_not_connected_before_connect() {
    let sensor = Sensor::new();
    let bytes = vec![0x64, 0x00, 0x00, 0x00];
    assert!(matches!(sensor.battery_percentage(&bytes), Err(Error::NotConnected)));
    assert!(matches!(sensor.battery_voltage(&bytes), Err(Error::NotConnected)));
    assert!(matches!(sensor.temperature(&bytes), Err(Error::NotConnected)));
    assert!(matches!(sensor.water_level(&bytes), Err(Error::NotConnected)));
    assert!(matches!(sensor.water_distance(&bytes), Err(Error::NotConnected)));
    assert!(matches!(sensor.tank_depth(&bytes), Err(Error::NotConnected)));
    assert!(matches!(sensor.errors(&bytes), Err(Error::NotConnected)));
    assert!(matches!(sensor.clear_new_data(), Err(Error::NotConnected)));
    for field in [
        Field::BatteryPercentage,
        Field::BatteryVoltage,
        Field::Temperature,
        Field::WaterLevel,
        Field::WaterDistance,
        Field::TankDepth,
        Field::ErrorCount,
    ] {
        assert!(matches!(sensor.field_handle(field), Err(Error::NotConnected)));
    }
}

#[test]
fn already_connected_error_is_swallowed() {
    let mut sensor = Sensor::new();
    sensor.start_connect();
    assert!(sensor.finish_connect(Err(ErrorKind::AlreadyConnected)).is_ok());
    assert_eq!(sensor.current_state(), ConnectionState::Discovering);
    // Discovery proceeds normally afterwards.
    assert!(sensor.finish_discovery(&full_tree()).is_ok());
    assert_eq!(sensor.current_state(), ConnectionState::Connected);
}

#[test]
fn other_transport_errors_abort_the_connect() {
    let mut sensor = Sensor::new();
    sensor.start_connect();
    match sensor.finish_connect(Err(ErrorKind::ConnectionAttemptFailed)) {
        Err(Error::Transport(kind)) => assert_eq!(kind, ErrorKind::ConnectionAttemptFailed),
        other => panic!("expected Transport error, got {:?}", other),
    }
    assert_eq!(sensor.current_state(), ConnectionState::Disconnected);
}

#[test]
fn discovery_failure_aborts_to_disconnected() {
    let mut sensor = Sensor::new();
    sensor.start_connect();
    sensor.finish_connect(Ok(())).unwrap();
    let tree: Vec<ServiceSnapshot> =
        full_tree().into_iter().filter(|s| s.uuid != SCS_UUID).collect();
    match sensor.finish_discovery(&tree) {
        Err(Error::GattAttributeNotFound(uuid)) => assert_eq!(uuid, SCS_UUID),
        other => panic!("expected GattAttributeNotFound, got {:?}", other),
    }
    assert_eq!(sensor.current_state(), ConnectionState::Disconnected);
    // No half-populated table survives a failed discovery.
    let bytes = vec![0x64, 0x00];
    assert!(matches!(sensor.temperature(&bytes), Err(Error::NotConnected)));
}

#[test]
fn end_to_end_cycle() {
    // Connect and discover all eight attributes.
    let mut sensor = connected_sensor();
    assert_eq!(sensor.field_handle(Field::Temperature).unwrap(), 2);
    assert_eq!(sensor.field_handle(Field::ErrorCount).unwrap(), 6);

    // A temperature read of [0x64, 0x00] decodes to 100, i.e. 1.00 degrees.
    let raw = vec![0x64, 0x00];
    let centi = sensor.temperature(&raw).unwrap();
    assert_eq!(centi, 100);
    assert_eq!(centi as f32 / 100.0, 1.00);

    // Clearing the status writes four zero bytes to the status handle.
    let (handle, payload) = sensor.clear_new_data().unwrap();
    assert_eq!(handle, 7);
    assert_eq!(payload, vec![0x00, 0x00, 0x00, 0x00]);

    // Disconnecting discards the attribute table, so a subsequent read
    // fails with NotConnected again.
    sensor.start_disconnect();
    sensor.finish_disconnect(Ok(())).unwrap();
    assert_eq!(sensor.current_state(), ConnectionState::Disconnected);
    assert!(matches!(sensor.temperature(&raw), Err(Error::NotConnected)));
}

#[test]
fn reads_keep_the_session_connected() {
    let sensor = connected_sensor();
    // A failed decode does not change the lifecycle state.
    let short = vec![0x64];
    match sensor.temperature(&short) {
        Err(Error::InvalidData(b)) => assert_eq!(b, vec![0x64]),
        other => panic!("expected InvalidData, got {:?}", other),
    }
    assert_eq!(sensor.current_state(), ConnectionState::Connected);
    // Sibling fields can still be read afterwards.
    assert_eq!(sensor.battery_voltage(&vec![0xe4, 0x0c]).unwrap(), 3300);
    assert_eq!(sensor.errors(&vec![0x02, 0x00, 0x00, 0x00]).unwrap(), 2);
    assert_eq!(sensor.battery_percentage(&vec![0x55]).unwrap(), 85);
    assert_eq!(sensor.water_level(&vec![0x10, 0x27]).unwrap(), 10000);
    assert_eq!(sensor.water_distance(&vec![0xf4, 0x01]).unwrap(), 500);
    assert_eq!(sensor.tank_depth(&vec![0x88, 0x13]).unwrap(), 5000);
}

#[test]
fn disconnect_failure_still_discards_the_table() {
    let mut sensor = connected_sensor();
    sensor.start_disconnect();
    match sensor.finish_disconnect(Err(ErrorKind::Failed)) {
        Err(Error::Transport(kind)) => assert_eq!(kind, ErrorKind::Failed),
        other => panic!("expected Transport error, got {:?}", other),
    }
    assert_eq!(sensor.current_state(), ConnectionState::Disconnected);
    assert!(matches!(sensor.temperature(&vec![0x64, 0x00]), Err(Error::NotConnected)));
}
