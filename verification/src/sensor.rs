//! Sensor session lifecycle.
//!
//! A [`Sensor`] owns the connect → discover → read/write → disconnect state
//! machine of one water-level sensor session. The transitions are pure: the
//! caller performs each transport action (connect, fetch the service tree,
//! read or write a characteristic, disconnect) and feeds the outcome back,
//! and the machine decides what follows. The attribute table lives strictly
//! inside one connected period: discovery failure or any disconnect discards
//! it, so a later connect always re-resolves handles instead of reusing
//! stale ones.
//!
//! Transition rules, stated and proved on the methods below:
//! - a transport connect that reports "already connected" is treated as
//!   success, since a previous run may have left the physical link open;
//!   every other transport error aborts back to `Disconnected`;
//! - discovery is all-or-nothing: its failure discards the table and aborts
//!   to `Disconnected` (the physical link is left to the caller);
//! - field reads and writes never change the lifecycle state, so one bad
//!   read never blocks the sibling fields;
//! - disconnecting discards the table unconditionally, even when the
//!   transport call itself then fails.

use vstd::prelude::*;

use crate::codec;
use crate::error::{Error, ErrorKind};
use crate::gatt::{find_gatt_attributes, missing_attribute, resolved_table};
use crate::gatt::{AttributeTable, ServiceSnapshot, SCS_UUID};
use crate::status::{StatusWait, STATUS_CLEARED, STATUS_NEW_DATA};

verus! {

/// The lifecycle states of a session.
#[derive(Clone, Copy, Debug, PartialEq, Eq, Structural)]
pub enum ConnectionState {
    Disconnected,
    Connecting,
    Discovering,
    Connected,
    Disconnecting,
}

/// One readable measurement field.
#[derive(Clone, Copy, Debug, PartialEq, Eq, Structural)]
pub enum Field {
    BatteryPercentage,
    BatteryVoltage,
    Temperature,
    WaterLevel,
    WaterDistance,
    TankDepth,
    ErrorCount,
}

/// The handle under which a field's characteristic was cached.
pub open spec fn field_handle_spec(t: AttributeTable, field: Field) -> u64 {
    match field {
        Field::BatteryPercentage => t.bas_battery_level,
        Field::BatteryVoltage => t.scs_battery_voltage,
        Field::Temperature => t.ess_temperature,
        Field::WaterLevel => t.wls_water_level,
        Field::WaterDistance => t.wls_water_distance,
        Field::TankDepth => t.wls_tank_depth,
        Field::ErrorCount => t.scs_error,
    }
}

/// The session state machine and its attribute table.
pub struct Sensor {
    state: ConnectionState,
    gatt: Option<AttributeTable>,
}

impl Sensor {
    /// The lifecycle state the session is in.
    pub closed spec fn state(&self) -> ConnectionState {
        self.state
    }

    /// The cached attribute table, present exactly while connected.
    pub closed spec fn table(&self) -> Option<AttributeTable> {
        self.gatt
    }

    /// The table exists exactly in the `Connected` state: it is built by a
    /// successful discovery and discarded on every way out of `Connected`.
    pub open spec fn wf(&self) -> bool {
        self.table() is Some <==> self.state() is Connected
    }

    /// A fresh session: disconnected, with no attribute table.
    pub fn new() -> (s: Sensor)
        ensures
            s.wf(),
            s.state() is Disconnected,
            s.table() is None,
    {
        Sensor { state: ConnectionState::Disconnected, gatt: None }
    }

    /// The current lifecycle state, for callers and tests.
    pub fn current_state(&self) -> (s: ConnectionState)
        ensures
            s == self.state(),
    {
        self.state
    }

    /// Enters `Connecting`; the caller must now issue the transport-level
    /// connect and report its outcome to `finish_connect`.
    pub fn start_connect(&mut self)
        requires
            old(self).wf(),
            old(self).state() is Disconnected,
        ensures
            final(self).wf(),
            final(self).state() is Connecting,
            final(self).table() is None,
    {
        self.state = ConnectionState::Connecting;
    }

    /// Consumes the outcome of the transport connect. Success — and an
    /// "already connected" error, which is swallowed — moves the session on
    /// to `Discovering`; every other transport error aborts to
    /// `Disconnected` and is propagated as [`Error::Transport`].
    pub fn finish_connect(&mut self, outcome: Result<(), ErrorKind>) -> (r: Result<(), Error>)
        requires
            old(self).wf(),
            old(self).state() is Connecting,
        ensures
            final(self).wf(),
            final(self).table() is None,
            match outcome {
                Ok(()) => r is Ok && final(self).state() is Discovering,
                Err(k) => if k is AlreadyConnected {
                    r is Ok && final(self).state() is Discovering
                } else {
                    r == Err::<(), Error>(Error::Transport(k)) && final(self).state()
                        is Disconnected
                },
            },
    {
        match outcome {
            Ok(()) => {
                self.state = ConnectionState::Discovering;
                Ok(())
            },
            Err(ErrorKind::AlreadyConnected) => {
                self.state = ConnectionState::Discovering;
                Ok(())
            },
            Err(k) => {
                self.state = ConnectionState::Disconnected;
                Err(Error::Transport(k))
            },
        }
    }

    /// Runs discovery over the snapshot of the connected device's service
    /// tree. All eight attributes resolve, or the session aborts to
    /// `Disconnected` with [`Error::GattAttributeNotFound`] naming the first
    /// missing UUID; a half-populated table is never kept.
    pub fn finish_discovery(&mut self, services: &Vec<ServiceSnapshot>) -> (r: Result<(), Error>)
        requires
            old(self).wf(),
            old(self).state() is Discovering,
        ensures
            final(self).wf(),
            match r {
                Ok(()) => {
                    &&& missing_attribute(services@) is None
                    &&& final(self).state() is Connected
                    &&& final(self).table() matches Some(t) && resolved_table(services@, t)
                },
                Err(e) => {
                    &&& missing_attribute(services@) matches Some(u) && e
                        == Error::GattAttributeNotFound(u)
                    &&& final(self).state() is Disconnected
                    &&& final(self).table() is None
                },
            },
    {
        match find_gatt_attributes(services) {
            Ok(table) => {
                self.gatt = Some(table);
                self.state = ConnectionState::Connected;
                Ok(())
            },
            Err(e) => {
                self.gatt = None;
                self.state = ConnectionState::Disconnected;
                Err(e)
            },
        }
    }

    /// Enters `Disconnecting` and discards the attribute table — before the
    /// transport call, so the table is gone even if that call fails.
    pub fn start_disconnect(&mut self)
        requires
            old(self).wf(),
            old(self).state() is Connected,
        ensures
            final(self).wf(),
            final(self).state() is Disconnecting,
            final(self).table() is None,
    {
        self.gatt = None;
        self.state = ConnectionState::Disconnecting;
    }

    /// Consumes the outcome of the transport disconnect. The session ends in
    /// `Disconnected` either way; a transport failure is propagated for
    /// logging but changes nothing else.
    pub fn finish_disconnect(&mut self, outcome: Result<(), ErrorKind>) -> (r: Result<(), Error>)
        requires
            old(self).wf(),
            old(self).state() is Disconnecting,
        ensures
            final(self).wf(),
            final(self).state() is Disconnected,
            final(self).table() is None,
            match outcome {
                Ok(()) => r is Ok,
                Err(k) => r == Err::<(), Error>(Error::Transport(k)),
            },
    {
        self.state = ConnectionState::Disconnected;
        match outcome {
            Ok(()) => Ok(()),
            Err(k) => Err(Error::Transport(k)),
        }
    }

    /// The characteristic handle to read a field from. Fails with
    /// [`Error::NotConnected`] — for every field, in any state, without
    /// panicking — while no attribute table is present.
    pub fn field_handle(&self, field: Field) -> (r: Result<u64, Error>)
        ensures
            self.table() is None ==> r == Err::<u64, Error>(Error::NotConnected),
            self.table() matches Some(t) ==> r == Ok::<u64, Error>(field_handle_spec(t, field)),
    {
        let table = match &self.gatt {
            Some(table) => table,
            None => {
                return Err(Error::NotConnected);
            },
        };
        Ok(
            match field {
                Field::BatteryPercentage => table.bas_battery_level,
                Field::BatteryVoltage => table.scs_battery_voltage,
                Field::Temperature => table.ess_temperature,
                Field::WaterLevel => table.wls_water_level,
                Field::WaterDistance => table.wls_water_distance,
                Field::TankDepth => table.wls_tank_depth,
                Field::ErrorCount => table.scs_error,
            },
        )
    }

    /// Decodes a battery percentage read: one unsigned byte, 0–255,
    /// interpreted as percent. `NotConnected` while no table is present.
    pub fn battery_percentage(&self, raw: &Vec<u8>) -> (r: Result<u8, Error>)
        ensures
            self.table() is None ==> r == Err::<u8, Error>(Error::NotConnected),
            self.table() is Some ==> match r {
                Ok(v) => raw@.len() >= 1 && v == raw@[0],
                Err(e) => raw@.len() < 1 && (e matches Error::InvalidData(b) && b@ == raw@),
            },
    {
        if self.gatt.is_none() {
            return Err(Error::NotConnected);
        }
        codec::decode_u8(raw)
    }

    /// Decodes a battery voltage read: unsigned 16-bit little-endian
    /// millivolts (the caller divides by 1000 for volts). `NotConnected`
    /// while no table is present.
    pub fn battery_voltage(&self, raw: &Vec<u8>) -> (r: Result<u16, Error>)
        ensures
            self.table() is None ==> r == Err::<u16, Error>(Error::NotConnected),
            self.table() is Some ==> match r {
                Ok(v) => raw@.len() >= 2 && v == codec::u16_le(raw@),
                Err(e) => raw@.len() < 2 && (e matches Error::InvalidData(b) && b@ == raw@),
            },
    {
        if self.gatt.is_none() {
            return Err(Error::NotConnected);
        }
        codec::decode_u16(raw)
    }

    /// Decodes a temperature read: signed 16-bit little-endian hundredths of
    /// a degree (the caller divides by 100 for degrees). `NotConnected`
    /// while no table is present.
    pub fn temperature(&self, raw: &Vec<u8>) -> (r: Result<i16, Error>)
        ensures
            self.table() is None ==> r == Err::<i16, Error>(Error::NotConnected),
            self.table() is Some ==> match r {
                Ok(v) => raw@.len() >= 2 && v == codec::i16_le(raw@),
                Err(e) => raw@.len() < 2 && (e matches Error::InvalidData(b) && b@ == raw@),
            },
    {
        if self.gatt.is_none() {
            return Err(Error::NotConnected);
        }
        codec::decode_i16(raw)
    }

    /// Decodes a water level read: unsigned 16-bit little-endian
    /// millimetres (the caller divides by 1000 for metres). `NotConnected`
    /// while no table is present.
    pub fn water_level(&self, raw: &Vec<u8>) -> (r: Result<u16, Error>)
        ensures
            self.table() is None ==> r == Err::<u16, Error>(Error::NotConnected),
            self.table() is Some ==> match r {
                Ok(v) => raw@.len() >= 2 && v == codec::u16_le(raw@),
                Err(e) => raw@.len() < 2 && (e matches Error::InvalidData(b) && b@ == raw@),
            },
    {
        if self.gatt.is_none() {
            return Err(Error::NotConnected);
        }
        codec::decode_u16(raw)
    }

    /// Decodes a water distance read, laid out like a water level read.
    pub fn water_distance(&self, raw: &Vec<u8>) -> (r: Result<u16, Error>)
        ensures
            self.table() is None ==> r == Err::<u16, Error>(Error::NotConnected),
            self.table() is Some ==> match r {
                Ok(v) => raw@.len() >= 2 && v == codec::u16_le(raw@),
                Err(e) => raw@.len() < 2 && (e matches Error::InvalidData(b) && b@ == raw@),
            },
    {
        if self.gatt.is_none() {
            return Err(Error::NotConnected);
        }
        codec::decode_u16(raw)
    }

    /// Decodes a tank depth read, laid out like a water level read.
    pub fn tank_depth(&self, raw: &Vec<u8>) -> (r: Result<u16, Error>)
        ensures
            self.table() is None ==> r == Err::<u16, Error>(Error::NotConnected),
            self.table() is Some ==> match r {
                Ok(v) => raw@.len() >= 2 && v == codec::u16_le(raw@),
                Err(e) => raw@.len() < 2 && (e matches Error::InvalidData(b) && b@ == raw@),
            },
    {
        if self.gatt.is_none() {
            return Err(Error::NotConnected);
        }
        codec::decode_u16(raw)
    }

    /// Decodes an error counter read: unsigned 32-bit little-endian.
    /// `NotConnected` while no table is present.
    pub fn errors(&self, raw: &Vec<u8>) -> (r: Result<u32, Error>)
        ensures
            self.table() is None ==> r == Err::<u32, Error>(Error::NotConnected),
            self.table() is Some ==> match r {
                Ok(v) => raw@.len() >= 4 && v == codec::u32_le(raw@),
                Err(e) => raw@.len() < 4 && (e matches Error::InvalidData(b) && b@ == raw@),
            },
    {
        if self.gatt.is_none() {
            return Err(Error::NotConnected);
        }
        codec::decode_u32(raw)
    }

    /// Begins a wait for the "new data ready" status (code 1).
    pub fn wait_new_data(&self) -> (w: StatusWait)
        ensures
            w.expected() == STATUS_NEW_DATA,
            w.phase() is Created,
    {
        StatusWait::new(STATUS_NEW_DATA)
    }

    /// Begins a wait for the "status cleared" broadcast (code 0), used after
    /// a status-clear write so that disconnecting early does not lose the
    /// next "new data" signal.
    pub fn wait_new_data_cleared(&self) -> (w: StatusWait)
        ensures
            w.expected() == STATUS_CLEARED,
            w.phase() is Created,
    {
        StatusWait::new(STATUS_CLEARED)
    }

    /// The write that clears the "new data" status: the handle of the status
    /// characteristic and the four-zero-byte encoding of status 0.
    /// `NotConnected` while no table is present.
    pub fn clear_new_data(&self) -> (r: Result<(u64, Vec<u8>), Error>)
        ensures
            self.table() is None ==> r == Err::<(u64, Vec<u8>), Error>(Error::NotConnected),
            self.table() matches Some(t) ==> (r matches Ok((h, bytes)) && h == t.scs_status
                && bytes@ == codec::u32_le_bytes(STATUS_CLEARED as int)),
    {
        let table = match &self.gatt {
            Some(table) => table,
            None => {
                return Err(Error::NotConnected);
            },
        };
        Ok((table.scs_status, codec::encode_u32(STATUS_CLEARED)))
    }
}

/// Whether an advertising-data record is the sensor's "new data" broadcast:
/// a service-data-128 record whose content is the System Control Service
/// UUID in its 16-byte little-endian wire form, followed by status 1.
pub open spec fn new_data_advertisement(content: Seq<u8>) -> bool {
    content == codec::le_bytes(SCS_UUID as nat, 16) + codec::u32_le_bytes(STATUS_NEW_DATA as int)
}

/// The 16 little-endian bytes of the System Control Service UUID: the prefix
/// an advertisement monitor matches at byte offset 0 of a service-data-128
/// record (AD type 0x21) to detect the "new data" broadcast out of band.
pub fn new_data_pattern() -> (r: Vec<u8>)
    ensures
        r@ == codec::le_bytes(SCS_UUID as nat, 16),
{
    codec::le_bytes_of(SCS_UUID, 16)
}

/// Decides whether an advertising-data record content is the "new data"
/// broadcast: the UUID prefix followed by status 1, and nothing else.
pub fn is_new_data_advertisement(content: &Vec<u8>) -> (r: bool)
    ensures
        r == new_data_advertisement(content@),
{
    let mut expected = codec::le_bytes_of(SCS_UUID, 16);
    let mut status = codec::encode_u32(STATUS_NEW_DATA);
    expected.append(&mut status);
    if content.len() != expected.len() {
        proof {
            assert(content@.len() != (codec::le_bytes(SCS_UUID as nat, 16) + codec::u32_le_bytes(
                STATUS_NEW_DATA as int,
            )).len());
        }
        return false;
    }
    let mut i: usize = 0;
    while i < content.len()
        invariant
            i <= content@.len(),
            content@.len() == expected@.len(),
            expected@ == codec::le_bytes(SCS_UUID as nat, 16) + codec::u32_le_bytes(
                STATUS_NEW_DATA as int,
            ),
            forall|j: int| 0 <= j < i ==> content@[j] == expected@[j],
        decreases content@.len() - i,
    {
        if content[i] != expected[i] {
            return false;
        }
        i = i + 1;
    }
    proof {
        assert(content@ =~= expected@);
    }
    true
}

/// Validates the device's pairing state before a session is created: an
/// unpaired device cannot be used and is rejected as `SensorInvalid`.
pub fn validate_pairing(paired: bool) -> (r: Result<(), Error>)
    ensures
        paired ==> r is Ok,
        !paired ==> (r matches Err(Error::SensorInvalid(m)) && m@ == "not paired"@),
{
    if paired {
        Ok(())
    } else {
        Err(Error::SensorInvalid("not paired".to_owned()))
    }
}

} // verus!
