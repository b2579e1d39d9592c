//! One collection cycle's point.
//!
//! A cycle waits for new data, connects, reads each field independently,
//! clears the status and disconnects. Per-field read failures are isolated:
//! a field that could not be read is simply omitted from the outgoing point,
//! so one bad read never blocks the others. [`data_point`] turns the cycle's
//! outcome — the capture timestamp and whatever readings succeeded — into
//! exactly the point the telemetry sink receives.

use vstd::prelude::*;

use crate::influxdb::{assoc_update, distinct_keys, lemma_assoc_update_absent};
use crate::influxdb::{Point, Timestamp, Value};

verus! {

/// How long one cycle waits for the "new data" signal before proceeding
/// with possibly stale data: sixteen minutes, in milliseconds.
pub fn default_new_data_timeout() -> (r: u32)
    ensures
        r == 960_000,
{
    16 * 60 * 1000
}

/// The readings one cycle managed to collect; a failed read leaves its
/// field absent. Voltage is in millivolts, temperature in hundredths of a
/// degree, the three level fields in millimetres.
#[derive(Clone, Copy, Debug)]
pub struct SensorReadings {
    pub battery_percentage: Option<u8>,
    pub battery_voltage: Option<u16>,
    pub temperature: Option<i16>,
    pub water_level: Option<u16>,
    pub water_distance: Option<u16>,
    pub tank_depth: Option<u16>,
    pub errors: Option<u32>,
}

/// The line-protocol value a reading enters the point as: counters as
/// integers, fixed-point readings with their scale.
pub open spec fn reading_fields(r: SensorReadings) -> Seq<(Seq<char>, Seq<char>)> {
    let s = Seq::<(Seq<char>, Seq<char>)>::empty();
    let s = match r.battery_percentage {
        Some(v) => s.push(("battery_percentage"@, Value::Integer(v as i64).rendered())),
        None => s,
    };
    let s = match r.battery_voltage {
        Some(v) => s.push(("battery_voltage"@, Value::Scaled(v as i64, 3).rendered())),
        None => s,
    };
    let s = match r.temperature {
        Some(v) => s.push(("temperature"@, Value::Scaled(v as i64, 2).rendered())),
        None => s,
    };
    let s = match r.water_level {
        Some(v) => s.push(("water_level"@, Value::Scaled(v as i64, 3).rendered())),
        None => s,
    };
    let s = match r.water_distance {
        Some(v) => s.push(("water_distance"@, Value::Scaled(v as i64, 3).rendered())),
        None => s,
    };
    let s = match r.tank_depth {
        Some(v) => s.push(("tank_depth"@, Value::Scaled(v as i64, 3).rendered())),
        None => s,
    };
    let s = match r.errors {
        Some(v) => s.push(("errors"@, Value::Integer(v as i64).rendered())),
        None => s,
    };
    s
}

/// The seven field names are pairwise different.
proof fn lemma_field_names_distinct()
    ensures
        "battery_percentage"@ != "battery_voltage"@,
        "battery_percentage"@ != "temperature"@,
        "battery_percentage"@ != "water_level"@,
        "battery_percentage"@ != "water_distance"@,
        "battery_percentage"@ != "tank_depth"@,
        "battery_percentage"@ != "errors"@,
        "battery_voltage"@ != "temperature"@,
        "battery_voltage"@ != "water_level"@,
        "battery_voltage"@ != "water_distance"@,
        "battery_voltage"@ != "tank_depth"@,
        "battery_voltage"@ != "errors"@,
        "temperature"@ != "water_level"@,
        "temperature"@ != "water_distance"@,
        "temperature"@ != "tank_depth"@,
        "temperature"@ != "errors"@,
        "water_level"@ != "water_distance"@,
        "water_level"@ != "tank_depth"@,
        "water_level"@ != "errors"@,
        "water_distance"@ != "tank_depth"@,
        "water_distance"@ != "errors"@,
        "tank_depth"@ != "errors"@,
{
    reveal_strlit("battery_percentage");
    reveal_strlit("battery_voltage");
    reveal_strlit("temperature");
    reveal_strlit("water_level");
    reveal_strlit("water_distance");
    reveal_strlit("tank_depth");
    reveal_strlit("errors");
    assert("battery_percentage"@.len() == 18);
    assert("battery_voltage"@.len() == 15);
    assert("temperature"@.len() == 11);
    assert("water_level"@.len() == 11);
    assert("water_distance"@.len() == 14);
    assert("tank_depth"@.len() == 10);
    assert("errors"@.len() == 6);
    assert("temperature"@[0] == 't');
    assert("water_level"@[0] == 'w');
}

/// Builds the outgoing point of one cycle: measurement `water_tank`, no
/// tags, the capture timestamp, and one field per successful reading, in
/// the fixed field order, each rendered as [`reading_fields`] states.
pub fn data_point(timestamp: Timestamp, readings: &SensorReadings) -> (p: Point)
    ensures
        p.wf(),
        p.measurement() == "water_tank"@,
        p.tags() == Seq::<(Seq<char>, Seq<char>)>::empty(),
        p.timestamp() == Some(timestamp),
        p.fields() == reading_fields(*readings),
{
    proof {
        lemma_field_names_distinct();
    }
    let mut point = Point::new("water_tank".to_owned());
    point.set_timestamp(timestamp);
    let ghost expect = Seq::<(Seq<char>, Seq<char>)>::empty();
    if let Some(v) = readings.battery_percentage {
        proof {
            lemma_assoc_update_absent(
                expect,
                "battery_percentage"@,
                Value::Integer(v as i64).rendered(),
            );
        }
        point.add_field("battery_percentage".to_owned(), Value::Integer(v as i64));
    }
    let ghost expect = point.fields();
    if let Some(v) = readings.battery_voltage {
        proof {
            lemma_assoc_update_absent(
                expect,
                "battery_voltage"@,
                Value::Scaled(v as i64, 3).rendered(),
            );
        }
        point.add_field("battery_voltage".to_owned(), Value::Scaled(v as i64, 3));
    }
    let ghost expect = point.fields();
    if let Some(v) = readings.temperature {
        proof {
            lemma_assoc_update_absent(expect, "temperature"@, Value::Scaled(v as i64, 2).rendered());
        }
        point.add_field("temperature".to_owned(), Value::Scaled(v as i64, 2));
    }
    let ghost expect = point.fields();
    if let Some(v) = readings.water_level {
        proof {
            lemma_assoc_update_absent(expect, "water_level"@, Value::Scaled(v as i64, 3).rendered());
        }
        point.add_field("water_level".to_owned(), Value::Scaled(v as i64, 3));
    }
    let ghost expect = point.fields();
    if let Some(v) = readings.water_distance {
        proof {
            lemma_assoc_update_absent(
                expect,
                "water_distance"@,
                Value::Scaled(v as i64, 3).rendered(),
            );
        }
        point.add_field("water_distance".to_owned(), Value::Scaled(v as i64, 3));
    }
    let ghost expect = point.fields();
    if let Some(v) = readings.tank_depth {
        proof {
            lemma_assoc_update_absent(expect, "tank_depth"@, Value::Scaled(v as i64, 3).rendered());
        }
        point.add_field("tank_depth".to_owned(), Value::Scaled(v as i64, 3));
    }
    let ghost expect = point.fields();
    if let Some(v) = readings.errors {
        proof {
            lemma_assoc_update_absent(expect, "errors"@, Value::Integer(v as i64).rendered());
        }
        point.add_field("errors".to_owned(), Value::Integer(v as i64));
    }
    point
}

} // verus!
