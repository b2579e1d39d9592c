//! Status wait protocol.
//!
//! The sensor broadcasts a 32-bit status code in the service data of its
//! advertisement, keyed by the System Control Service UUID: `1` means "new
//! data ready", `0` means "status cleared"; other values carry no meaning
//! here and are never interpreted. Waiting for a status is event driven and
//! must avoid the race between subscribing to change events and reading the
//! current value: [`StatusWait`] only accepts the initial read *after* the
//! event watcher has been armed, which the phase discipline below enforces.
//! Malformed status payloads never end a wait; they are skipped and the wait
//! continues.

use vstd::prelude::*;

use crate::codec;
use crate::error::{Address, Error};
use crate::gatt::SCS_UUID;

verus! {

/// The status code that signals "new measurement ready".
pub const STATUS_NEW_DATA: u32 = 1;

/// The status code that signals "acknowledged / cleared".
pub const STATUS_CLEARED: u32 = 0;

/// One entry of the device's advertised service data: a service UUID and the
/// byte blob broadcast under it.
#[derive(Debug)]
pub struct ServiceDataEntry {
    pub uuid: u128,
    pub data: Vec<u8>,
}

/// The first service-data entry carrying `uuid`, if any.
pub open spec fn find_entry_spec(s: Seq<ServiceDataEntry>, uuid: u128) -> Option<ServiceDataEntry>
    decreases s.len(),
{
    if s.len() == 0 {
        None
    } else if s[0].uuid == uuid {
        Some(s[0])
    } else {
        find_entry_spec(s.drop_first(), uuid)
    }
}

/// Whether a service-data snapshot carries a well-formed status equal to
/// `expected`: the System Control entry is present, at least four bytes
/// long, and decodes to `expected`.
pub open spec fn status_matches(entries: Seq<ServiceDataEntry>, expected: u32) -> bool {
    match find_entry_spec(entries, SCS_UUID) {
        None => false,
        Some(e) => e.data@.len() >= 4 && codec::u32_le(e.data@) == expected,
    }
}

/// Reads the current status out of the device's service data, if present:
/// `PropertyNotFound` when the service data or its System Control entry is
/// absent, `InvalidData` (with the offending bytes) when the entry is
/// shorter than four bytes, and the decoded code otherwise.
pub fn current_status(service_data: Option<&Vec<ServiceDataEntry>>) -> (r: Result<u32, Error>)
    ensures
        match service_data {
            None => r == Err::<u32, Error>(Error::PropertyNotFound),
            Some(entries) => match find_entry_spec(entries@, SCS_UUID) {
                None => r == Err::<u32, Error>(Error::PropertyNotFound),
                Some(entry) => if entry.data@.len() >= 4 {
                    r matches Ok(v) && v == codec::u32_le(entry.data@)
                } else {
                    r matches Err(Error::InvalidData(b)) && b@ == entry.data@
                },
            },
        },
{
    let entries = match service_data {
        Some(entries) => entries,
        None => {
            return Err(Error::PropertyNotFound);
        },
    };
    let ghost all = entries@;
    proof {
        assert(all.subrange(0, all.len() as int) =~= all);
    }
    let mut i: usize = 0;
    while i < entries.len()
        invariant
            i <= all.len(),
            all == entries@,
            service_data matches Some(sd) && sd@ == all,
            find_entry_spec(all, SCS_UUID) == find_entry_spec(
                all.subrange(i as int, all.len() as int),
                SCS_UUID,
            ),
        decreases all.len() - i,
    {
        proof {
            assert(all.subrange(i as int, all.len() as int)[0] == all[i as int]);
        }
        if entries[i].uuid == SCS_UUID {
            proof {
                assert(find_entry_spec(all.subrange(i as int, all.len() as int), SCS_UUID) == Some(
                    all[i as int],
                ));
            }
            return codec::decode_u32(&entries[i].data);
        }
        proof {
            assert(all.subrange(i as int, all.len() as int).drop_first() =~= all.subrange(
                i as int + 1,
                all.len() as int,
            ));
        }
        i = i + 1;
    }
    proof {
        assert(all.subrange(all.len() as int, all.len() as int).len() == 0);
    }
    Err(Error::PropertyNotFound)
}

/// Where a wait stands.
#[derive(Clone, Copy, Debug, PartialEq, Eq, Structural)]
pub enum WaitPhase {
    /// Created; the event watcher is not armed yet.
    Created,
    /// The event watcher is armed; the initial status read may be consumed.
    Armed,
    /// The initial read did not match; events are being consumed.
    Waiting,
    /// A well-formed status equal to the expected value was seen.
    Matched,
    /// The event stream ended or the budget ran out before a match.
    Exhausted,
}

/// One wait for the broadcast status to equal an expected value.
///
/// The phase discipline encodes the race-avoidance rule: `check_current`,
/// which consumes the initial direct read, is only callable in the `Armed`
/// phase, i.e. after `arm` recorded that the event watcher is registered.
/// An event arriving between arming and the initial read is therefore never
/// lost: either the initial read already sees the new value, or the event is
/// delivered to `on_event`.
pub struct StatusWait {
    expected: u32,
    phase: WaitPhase,
}

impl StatusWait {
    /// The status code this wait is for.
    pub closed spec fn expected(&self) -> u32 {
        self.expected
    }

    /// The phase the wait is in.
    pub closed spec fn phase(&self) -> WaitPhase {
        self.phase
    }

    /// Starts a wait for `expected`. The caller must arm its event watcher
    /// before consuming the initial status read.
    pub fn new(expected: u32) -> (w: StatusWait)
        ensures
            w.expected() == expected,
            w.phase() is Created,
    {
        StatusWait { expected, phase: WaitPhase::Created }
    }

    /// Records that the event watcher is registered. Only after this may the
    /// current status be checked.
    pub fn arm(&mut self)
        requires
            old(self).phase() is Created,
        ensures
            final(self).expected() == old(self).expected(),
            final(self).phase() is Armed,
    {
        self.phase = WaitPhase::Armed;
    }

    /// Consumes the initial direct read of the current status, taken after
    /// arming. Returns true — success, immediately and without consuming any
    /// wait time — exactly when the snapshot already carries a well-formed
    /// status equal to the expected value; any absent, short or non-matching
    /// status leaves the wait consuming events.
    pub fn check_current(&mut self, service_data: Option<&Vec<ServiceDataEntry>>) -> (matched:
        bool)
        requires
            old(self).phase() is Armed,
        ensures
            final(self).expected() == old(self).expected(),
            matched <==> (service_data matches Some(entries) && status_matches(
                entries@,
                old(self).expected(),
            )),
            matched ==> final(self).phase() is Matched,
            !matched ==> final(self).phase() is Waiting,
    {
        match current_status(service_data) {
            Ok(code) => {
                if code == self.expected {
                    self.phase = WaitPhase::Matched;
                    true
                } else {
                    self.phase = WaitPhase::Waiting;
                    false
                }
            },
            Err(_) => {
                self.phase = WaitPhase::Waiting;
                false
            },
        }
    }

    /// Consumes one service-data change event. Returns true exactly when the
    /// event carries a well-formed status equal to the expected value; a
    /// missing entry, a malformed (too short) payload or any other value
    /// keeps the wait alive rather than failing it.
    pub fn on_event(&mut self, service_data: &Vec<ServiceDataEntry>) -> (matched: bool)
        requires
            old(self).phase() is Waiting,
        ensures
            final(self).expected() == old(self).expected(),
            matched <==> status_matches(service_data@, old(self).expected()),
            matched ==> final(self).phase() is Matched,
            !matched ==> final(self).phase() is Waiting,
    {
        match current_status(Some(service_data)) {
            Ok(code) => {
                if code == self.expected {
                    self.phase = WaitPhase::Matched;
                    true
                } else {
                    false
                }
            },
            Err(_) => false,
        }
    }

    /// Ends the wait without a match: the event stream closed or the timeout
    /// budget ran out. The caller treats the returned `SensorNotFound` as
    /// "proceed anyway, data may be stale", not as a hard failure.
    pub fn give_up(&mut self, address: Address) -> (e: Error)
        requires
            old(self).phase() is Armed || old(self).phase() is Waiting,
        ensures
            final(self).phase() is Exhausted,
            e == Error::SensorNotFound(address),
    {
        self.phase = WaitPhase::Exhausted;
        Error::SensorNotFound(address)
    }
}

} // verus!
