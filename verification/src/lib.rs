//! Client-side session core for a Bluetooth Low Energy water-level sensor.
//!
//! The crate holds the protocol logic of the base station: the little-endian
//! value codec, the timeout budget, GATT attribute discovery over a snapshot
//! of the device's service tree, the race-free status-wait protocol, the
//! connect/discover/read/write/disconnect session state machine, and the
//! line-protocol point builder fed by decoded readings.
//!
//! Everything that talks to a radio, a clock or the network lives outside
//! this crate; the functions here are pure state and byte manipulation, and
//! each carries a contract checked by Verus.

pub mod budget;
pub mod codec;
pub mod collect;
pub mod error;
pub mod gatt;
pub mod influxdb;
pub mod sensor;
pub mod status;
pub mod text;
