//! Line-protocol rendering: values, timestamps, points and the write query.

use base_station::collect::{data_point, default_new_data_timeout, SensorReadings};
use base_station::influxdb::{write_query, Point, Timestamp, TimestampPrecision, Value};

#[test]
fn integer_values_carry_the_i_suffix() {
    assert_eq!(Value::Integer(42).render(), "42i");
    assert_eq!(Value::Integer(0).render(), "0i");
    assert_eq!(Value::Integer(-7).render(), "-7i");
    assert_eq!(Value::Integer(i64::MIN).render(), "-9223372036854775808i");
    assert_eq!(Value::Integer(i64::MAX).render(), "9223372036854775807i");
}

#[test]
fn boolean_and_text_values_render() {
    assert_eq!(Value::Boolean(true).render(), "true");
    assert_eq!(Value::Boolean(false).render(), "false");
    assert_eq!(Value::Text("tank A".to_owned()).render(), "\"tank A\"");
}

#[test]
fn scaled_values_render_fixed_point() {
    assert_eq!(Value::Scaled(3300, 3).render(), "3.300");
    assert_eq!(Value::Scaled(100, 2).render(), "1.00");
    assert_eq!(Value::Scaled(-50, 2).render(), "-0.50");
    assert_eq!(Value::Scaled(0, 3).render(), "0.000");
    assert_eq!(Value::Scaled(12345, 3).render(), "12.345");
    assert_eq!(Value::Scaled(7, 0).render(), "7");
}

#[test]
fn timestamps_scale_to_their_precision() {
    let nanos: u64 = 1_700_000_000_123_456_789;
    assert_eq!(Timestamp::new(nanos, TimestampPrecision::NanoSecond).scaled(), nanos);
    assert_eq!(
        Timestamp::new(nanos, TimestampPrecision::MicroSecond).scaled(),
        1_700_000_000_123_456
    );
    assert_eq!(
        Timestamp::new(nanos, TimestampPrecision::MilliSecond).scaled(),
        1_700_000_000_123
    );
    assert_eq!(Timestamp::new(nanos, TimestampPrecision::Second).scaled(), 1_700_000_000);
    assert_eq!(Timestamp::new(nanos, TimestampPrecision::Minute).scaled(), 28_333_333);
    assert_eq!(Timestamp::new(nanos, TimestampPrecision::Hour).scaled(), 472_222);
}

#[test]
fn precision_suffixes() {
    assert_eq!(TimestampPrecision::NanoSecond.suffix(), "ns");
    assert_eq!(TimestampPrecision::MicroSecond.suffix(), "u");
    assert_eq!(TimestampPrecision::MilliSecond.suffix(), "ms");
    assert_eq!(TimestampPrecision::Second.suffix(), "s");
    assert_eq!(TimestampPrecision::Minute.suffix(), "m");
    assert_eq!(TimestampPrecision::Hour.suffix(), "h");
}

#[test]
fn bare_point_renders_its_measurement() {
    let point = Point::new("water_tank".to_owned());
    assert_eq!(point.to_line(), "water_tank");
}

#[test]
fn point_renders_tags_fields_and_timestamp() {
    let mut point = Point::new("water_tank".to_owned());
    point.add_tag("site".to_owned(), "home".to_owned());
    point.add_field("temperature".to_owned(), Value::Scaled(100, 2));
    point.add_field("errors".to_owned(), Value::Integer(2));
    point.set_timestamp(Timestamp::new(1_700_000_000_000_000_000, TimestampPrecision::Second));
    assert_eq!(
        point.to_line(),
        "water_tank,site=home temperature=1.00,errors=2i 1700000000"
    );
}

#[test]
fn adding_an_existing_key_replaces_its_value_in_place() {
    let mut point = Point::new("m".to_owned());
    point.add_field("a".to_owned(), Value::Integer(1));
    point.add_field("b".to_owned(), Value::Integer(2));
    point.add_field("a".to_owned(), Value::Integer(3));
    assert_eq!(point.to_line(), "m a=3i,b=2i");
    point.add_tag("x".to_owned(), "1".to_owned());
    point.add_tag("x".to_owned(), "2".to_owned());
    assert_eq!(point.to_line(), "m,x=2 a=3i,b=2i");
}

#[test]
fn write_query_names_database_and_precision() {
    assert_eq!(write_query("sensors", None), "db=sensors");
    assert_eq!(
        write_query("sensors", Some(&TimestampPrecision::Second)),
        "db=sensors&precision=s"
    );
}

#[test]
fn data_point_renders_all_readings() {
    let readings = SensorReadings {
        battery_percentage: Some(85),
        battery_voltage: Some(3300),
        temperature: Some(100),
        water_level: Some(10000),
        water_distance: Some(500),
        tank_depth: Some(5000),
        errors: Some(2),
    };
    let ts = Timestamp::new(1_700_000_000_000_000_000, TimestampPrecision::Second);
    let point = data_point(ts, &readings);
    assert_eq!(
        point.to_line(),
        "water_tank battery_percentage=85i,battery_voltage=3.300,temperature=1.00,\
         water_level=10.000,water_distance=0.500,tank_depth=5.000,errors=2i 1700000000"
    );
}

#[test]
fn data_point_omits_failed_readings() {
    // A failed field read leaves its field out; the others still flow.
    let readings = SensorReadings {
        battery_percentage: None,
        battery_voltage: Some(3278),
        temperature: None,
        water_level: None,
        water_distance: None,
        tank_depth: None,
        errors: Some(0),
    };
    let ts = Timestamp::new(2_000_000_000, TimestampPrecision::Second);
    let point = data_point(ts, &readings);
    assert_eq!(point.to_line(), "water_tank battery_voltage=3.278,errors=0i 2");
}

#[test]
fn default_timeout_is_sixteen_minutes() {
    assert_eq!(default_new_data_timeout(), 16 * 60 * 1000);
}
