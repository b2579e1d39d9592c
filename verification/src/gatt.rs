//! GATT attribute discovery.
//!
//! The sensor exposes eight characteristics grouped under four services,
//! identified by the fixed UUIDs below. Discovery runs over a snapshot of
//! the connected device's service tree — each service's UUID and each
//! characteristic's UUID together with an opaque handle the caller chose to
//! identify it — and resolves every required (service, characteristic) pair
//! to its handle. Discovery is all-or-nothing: the first required UUID that
//! cannot be found aborts it with [`Error::GattAttributeNotFound`] carrying
//! that UUID, and no table is produced.

use vstd::prelude::*;

use crate::error::Error;

verus! {

// Battery Service
pub const BAS_UUID: u128 = 0x0000180f_0000_1000_8000_00805f9b34fb;

pub const BAS_BATTERY_LEVEL_UUID: u128 = 0x00002a19_0000_1000_8000_00805f9b34fb;

// Environmental Sensing Service
pub const ESS_UUID: u128 = 0x0000181a_0000_1000_8000_00805f9b34fb;

pub const ESS_TEMPERATURE_UUID: u128 = 0x00002a6e_0000_1000_8000_00805f9b34fb;

// Water Level Service (vendor)
pub const WLS_UUID: u128 = 0x67dd9530_9b07_e58b_e811_affa00e3c701;

pub const WLS_WATER_LEVEL_UUID: u128 = 0x7af2e6a5_729a_a1b5_4a4e_6d5799bc4c24;

pub const WLS_WATER_DISTANCE_UUID: u128 = 0xfe475554_4784_3b82_9442_a74f062d3101;

pub const WLS_TANK_DEPTH_UUID: u128 = 0xd357ee3d_765c_debf_8c49_4a2fcbecc6d3;

// System Control Service (vendor)
pub const SCS_UUID: u128 = 0x89efdfcb_9661_888e_724e_c0a20f20f8a1;

pub const SCS_ERROR_UUID: u128 = 0xc25f2f83_847b_c6bd_a74a_cbc37714f1e3;

pub const SCS_STATUS_UUID: u128 = 0x57c15dae_edd4_c195_284b_61f909f5325b;

pub const SCS_BATTERY_VOLTAGE_UUID: u128 = 0xdd08556b_ad05_7c83_2640_90448b38c121;

/// One characteristic of a discovered service: its UUID and an opaque handle
/// under which the caller can address it later.
#[derive(Clone, Copy, Debug)]
pub struct CharacteristicSnapshot {
    pub uuid: u128,
    pub handle: u64,
}

/// One discovered service: its UUID and its characteristics.
#[derive(Debug)]
pub struct ServiceSnapshot {
    pub uuid: u128,
    pub characteristics: Vec<CharacteristicSnapshot>,
}

/// The resolved characteristic handles, cached for the lifetime of one
/// connected period and discarded on every disconnect.
#[derive(Clone, Copy, Debug)]
pub struct AttributeTable {
    pub bas_battery_level: u64,
    pub ess_temperature: u64,
    pub wls_water_level: u64,
    pub wls_water_distance: u64,
    pub wls_tank_depth: u64,
    pub scs_error: u64,
    pub scs_status: u64,
    pub scs_battery_voltage: u64,
}

/// The first service carrying `uuid`, if any.
pub open spec fn find_service_spec(s: Seq<ServiceSnapshot>, uuid: u128) -> Option<ServiceSnapshot>
    decreases s.len(),
{
    if s.len() == 0 {
        None
    } else if s[0].uuid == uuid {
        Some(s[0])
    } else {
        find_service_spec(s.drop_first(), uuid)
    }
}

/// The first characteristic carrying `uuid`, if any.
pub open spec fn find_characteristic_spec(c: Seq<CharacteristicSnapshot>, uuid: u128) -> Option<
    CharacteristicSnapshot,
>
    decreases c.len(),
{
    if c.len() == 0 {
        None
    } else if c[0].uuid == uuid {
        Some(c[0])
    } else {
        find_characteristic_spec(c.drop_first(), uuid)
    }
}

/// The handle that discovery resolves for the pair (`svc_uuid`, `chr_uuid`):
/// the first matching characteristic of the first matching service.
pub open spec fn lookup_handle(s: Seq<ServiceSnapshot>, svc_uuid: u128, chr_uuid: u128) -> Option<
    u64,
> {
    match find_service_spec(s, svc_uuid) {
        None => None,
        Some(service) => match find_characteristic_spec(service.characteristics@, chr_uuid) {
            None => None,
            Some(c) => Some(c.handle),
        },
    }
}

/// The UUID on which discovery fails, if any: the required UUIDs are checked
/// in a fixed order (each service, then its characteristics), and the first
/// one absent from the tree is reported.
pub open spec fn missing_attribute(s: Seq<ServiceSnapshot>) -> Option<u128> {
    if find_service_spec(s, BAS_UUID) is None {
        Some(BAS_UUID)
    } else if lookup_handle(s, BAS_UUID, BAS_BATTERY_LEVEL_UUID) is None {
        Some(BAS_BATTERY_LEVEL_UUID)
    } else if find_service_spec(s, ESS_UUID) is None {
        Some(ESS_UUID)
    } else if lookup_handle(s, ESS_UUID, ESS_TEMPERATURE_UUID) is None {
        Some(ESS_TEMPERATURE_UUID)
    } else if find_service_spec(s, WLS_UUID) is None {
        Some(WLS_UUID)
    } else if lookup_handle(s, WLS_UUID, WLS_WATER_LEVEL_UUID) is None {
        Some(WLS_WATER_LEVEL_UUID)
    } else if lookup_handle(s, WLS_UUID, WLS_WATER_DISTANCE_UUID) is None {
        Some(WLS_WATER_DISTANCE_UUID)
    } else if lookup_handle(s, WLS_UUID, WLS_TANK_DEPTH_UUID) is None {
        Some(WLS_TANK_DEPTH_UUID)
    } else if find_service_spec(s, SCS_UUID) is None {
        Some(SCS_UUID)
    } else if lookup_handle(s, SCS_UUID, SCS_ERROR_UUID) is None {
        Some(SCS_ERROR_UUID)
    } else if lookup_handle(s, SCS_UUID, SCS_STATUS_UUID) is None {
        Some(SCS_STATUS_UUID)
    } else if lookup_handle(s, SCS_UUID, SCS_BATTERY_VOLTAGE_UUID) is None {
        Some(SCS_BATTERY_VOLTAGE_UUID)
    } else {
        None
    }
}

/// The table that a fully successful discovery produces.
pub open spec fn resolved_table(s: Seq<ServiceSnapshot>, t: AttributeTable) -> bool {
    &&& Some(t.bas_battery_level) == lookup_handle(s, BAS_UUID, BAS_BATTERY_LEVEL_UUID)
    &&& Some(t.ess_temperature) == lookup_handle(s, ESS_UUID, ESS_TEMPERATURE_UUID)
    &&& Some(t.wls_water_level) == lookup_handle(s, WLS_UUID, WLS_WATER_LEVEL_UUID)
    &&& Some(t.wls_water_distance) == lookup_handle(s, WLS_UUID, WLS_WATER_DISTANCE_UUID)
    &&& Some(t.wls_tank_depth) == lookup_handle(s, WLS_UUID, WLS_TANK_DEPTH_UUID)
    &&& Some(t.scs_error) == lookup_handle(s, SCS_UUID, SCS_ERROR_UUID)
    &&& Some(t.scs_status) == lookup_handle(s, SCS_UUID, SCS_STATUS_UUID)
    &&& Some(t.scs_battery_voltage) == lookup_handle(s, SCS_UUID, SCS_BATTERY_VOLTAGE_UUID)
}

/// Locates the first service carrying `uuid`, failing with
/// [`Error::GattAttributeNotFound`] when none does.
pub fn find_service(services: &Vec<ServiceSnapshot>, uuid: u128) -> (r: Result<usize, Error>)
    ensures
        match r {
            Ok(i) => 0 <= i < services@.len() && find_service_spec(services@, uuid) == Some(
                services@[i as int],
            ) && services@[i as int].uuid == uuid,
            Err(e) => e == Error::GattAttributeNotFound(uuid) && find_service_spec(
                services@,
                uuid,
            ) is None,
        },
{
    let ghost all = services@;
    proof {
        assert(all.subrange(0, all.len() as int) =~= all);
    }
    let mut i: usize = 0;
    while i < services.len()
        invariant
            i <= all.len(),
            all == services@,
            find_service_spec(all, uuid) == find_service_spec(
                all.subrange(i as int, all.len() as int),
                uuid,
            ),
        decreases all.len() - i,
    {
        proof {
            assert(all.subrange(i as int, all.len() as int)[0] == all[i as int]);
        }
        if services[i].uuid == uuid {
            return Ok(i);
        }
        proof {
            assert(all.subrange(i as int, all.len() as int).drop_first() =~= all.subrange(
                i as int + 1,
                all.len() as int,
            ));
        }
        i = i + 1;
    }
    proof {
        assert(all.subrange(all.len() as int, all.len() as int).len() == 0);
    }
    Err(Error::GattAttributeNotFound(uuid))
}

/// Locates the first characteristic carrying `uuid`, failing with
/// [`Error::GattAttributeNotFound`] when none does.
pub fn find_characteristic(chars: &Vec<CharacteristicSnapshot>, uuid: u128) -> (r: Result<
    usize,
    Error,
>)
    ensures
        match r {
            Ok(i) => 0 <= i < chars@.len() && find_characteristic_spec(chars@, uuid) == Some(
                chars@[i as int],
            ) && chars@[i as int].uuid == uuid,
            Err(e) => e == Error::GattAttributeNotFound(uuid) && find_characteristic_spec(
                chars@,
                uuid,
            ) is None,
        },
{
    let ghost all = chars@;
    proof {
        assert(all.subrange(0, all.len() as int) =~= all);
    }
    let mut i: usize = 0;
    while i < chars.len()
        invariant
            i <= all.len(),
            all == chars@,
            find_characteristic_spec(all, uuid) == find_characteristic_spec(
                all.subrange(i as int, all.len() as int),
                uuid,
            ),
        decreases all.len() - i,
    {
        proof {
            assert(all.subrange(i as int, all.len() as int)[0] == all[i as int]);
        }
        if chars[i].uuid == uuid {
            return Ok(i);
        }
        proof {
            assert(all.subrange(i as int, all.len() as int).drop_first() =~= all.subrange(
                i as int + 1,
                all.len() as int,
            ));
        }
        i = i + 1;
    }
    proof {
        assert(all.subrange(all.len() as int, all.len() as int).len() == 0);
    }
    Err(Error::GattAttributeNotFound(uuid))
}

/// Resolves one required characteristic inside an already-located service.
fn resolve_in_service(services: &Vec<ServiceSnapshot>, svc_index: usize, svc_uuid: u128,
    chr_uuid: u128) -> (r: Result<u64, Error>)
    requires
        svc_index < services@.len(),
        find_service_spec(services@, svc_uuid) == Some(services@[svc_index as int]),
    ensures
        match r {
            Ok(h) => lookup_handle(services@, svc_uuid, chr_uuid) == Some(h),
            Err(e) => e == Error::GattAttributeNotFound(chr_uuid) && lookup_handle(
                services@,
                svc_uuid,
                chr_uuid,
            ) is None,
        },
{
    match find_characteristic(&services[svc_index].characteristics, chr_uuid) {
        Ok(j) => Ok(services[svc_index].characteristics[j].handle),
        Err(e) => Err(e),
    }
}

/// Discovers all eight required attributes, all-or-nothing.
///
/// On success the returned table resolves every required pair to the handle
/// of the first matching characteristic of the first matching service. On
/// failure the error names exactly the first required UUID (in the fixed
/// check order) that the tree lacks, and the failure is deterministic: the
/// same tree always yields the same missing UUID.
pub fn find_gatt_attributes(services: &Vec<ServiceSnapshot>) -> (r: Result<AttributeTable, Error>)
    ensures
        match r {
            Ok(t) => missing_attribute(services@) is None && resolved_table(services@, t),
            Err(e) => missing_attribute(services@) matches Some(u) && e
                == Error::GattAttributeNotFound(u),
        },
{
    let bas = match find_service(services, BAS_UUID) {
        Ok(i) => i,
        Err(e) => {
            return Err(e);
        },
    };
    let bas_battery_level = match resolve_in_service(
        services,
        bas,
        BAS_UUID,
        BAS_BATTERY_LEVEL_UUID,
    ) {
        Ok(h) => h,
        Err(e) => {
            return Err(e);
        },
    };
    let ess = match find_service(services, ESS_UUID) {
        Ok(i) => i,
        Err(e) => {
            return Err(e);
        },
    };
    let ess_temperature = match resolve_in_service(services, ess, ESS_UUID, ESS_TEMPERATURE_UUID) {
        Ok(h) => h,
        Err(e) => {
            return Err(e);
        },
    };
    let wls = match find_service(services, WLS_UUID) {
        Ok(i) => i,
        Err(e) => {
            return Err(e);
        },
    };
    let wls_water_level = match resolve_in_service(services, wls, WLS_UUID, WLS_WATER_LEVEL_UUID) {
        Ok(h) => h,
        Err(e) => {
            return Err(e);
        },
    };
    let wls_water_distance = match resolve_in_service(
        services,
        wls,
        WLS_UUID,
        WLS_WATER_DISTANCE_UUID,
    ) {
        Ok(h) => h,
        Err(e) => {
            return Err(e);
        },
    };
    let wls_tank_depth = match resolve_in_service(services, wls, WLS_UUID, WLS_TANK_DEPTH_UUID) {
        Ok(h) => h,
        Err(e) => {
            return Err(e);
        },
    };
    let scs = match find_service(services, SCS_UUID) {
        Ok(i) => i,
        Err(e) => {
            return Err(e);
        },
    };
    let scs_error = match resolve_in_service(services, scs, SCS_UUID, SCS_ERROR_UUID) {
        Ok(h) => h,
        Err(e) => {
            return Err(e);
        },
    };
    let scs_status = match resolve_in_service(services, scs, SCS_UUID, SCS_STATUS_UUID) {
        Ok(h) => h,
        Err(e) => {
            return Err(e);
        },
    };
    let scs_battery_voltage = match resolve_in_service(
        services,
        scs,
        SCS_UUID,
        SCS_BATTERY_VOLTAGE_UUID,
    ) {
        Ok(h) => h,
        Err(e) => {
            return Err(e);
        },
    };
    Ok(
        AttributeTable {
            bas_battery_level,
            ess_temperature,
            wls_water_level,
            wls_water_distance,
            wls_tank_depth,
            scs_error,
            scs_status,
            scs_battery_voltage,
        },
    )
}

} // verus!
