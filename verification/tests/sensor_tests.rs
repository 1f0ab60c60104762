use ovenctl::current_sensor::CurrentSensor;
use ovenctl::temp_sensor::{ProbeReading, TempSensor};

#[test]
fn temp_sensor_starts_empty() {
    let ts = TempSensor::new();
    assert_eq!(ts.get_sensor(), None);
    assert_eq!(ts.get_internal_temperature(), None);
    assert!(!ts.is_error());
    assert!(!ts.is_overheating());
}

#[test]
fn temp_sensor_applies_calibration_offset() {
    let mut ts = TempSensor::new();
    ts.poll_sensor(Some(ProbeReading { thermocouple: 0, internal: 2500 }));
    // The probe reading gets the +5 degree (500 centidegree) offset; the
    // cold-junction reading does not.
    assert_eq!(ts.get_sensor(), Some(500));
    assert_eq!(ts.get_internal_temperature(), Some(2500));
}

#[test]
fn temp_sensor_mean_over_window() {
    let mut ts = TempSensor::new();
    ts.poll_sensor(Some(ProbeReading { thermocouple: 10000, internal: 2000 }));
    ts.poll_sensor(Some(ProbeReading { thermocouple: 20000, internal: 4000 }));
    // Probe window holds 10500 and 20500: mean 15500.
    assert_eq!(ts.get_sensor(), Some(15500));
    assert_eq!(ts.get_internal_temperature(), Some(3000));
}

#[test]
fn temp_sensor_evicts_oldest_beyond_ten() {
    let mut ts = TempSensor::new();
    for i in 0..11 {
        ts.poll_sensor(Some(ProbeReading { thermocouple: i * 1000, internal: 0 }));
    }
    // Samples 1000..=10000 survive (plus the 500 offset each): mean 6000.
    assert_eq!(ts.get_sensor(), Some(5500 + 500));
}

#[test]
fn temp_sensor_failure_keeps_stale_readings() {
    let mut ts = TempSensor::new();
    ts.poll_sensor(Some(ProbeReading { thermocouple: 20000, internal: 3000 }));
    ts.poll_sensor(None);
    ts.poll_sensor(None);
    assert_eq!(ts.get_sensor(), Some(20500));
    assert!(!ts.is_error());
}

#[test]
fn temp_sensor_error_after_threshold() {
    let mut ts = TempSensor::new();
    for _ in 0..20 {
        ts.poll_sensor(None);
    }
    assert!(!ts.is_error());
    ts.poll_sensor(None);
    assert!(ts.is_error());
}

#[test]
fn temp_sensor_error_clears_on_success() {
    let mut ts = TempSensor::new();
    for _ in 0..25 {
        ts.poll_sensor(None);
    }
    assert!(ts.is_error());
    ts.poll_sensor(Some(ProbeReading { thermocouple: 1000, internal: 1000 }));
    assert!(!ts.is_error());
}

#[test]
fn temp_sensor_overheating_strictly_above_ceiling() {
    let mut ts = TempSensor::new();
    ts.poll_sensor(Some(ProbeReading { thermocouple: 0, internal: 6000 }));
    assert!(!ts.is_overheating());
    let mut hot = TempSensor::new();
    hot.poll_sensor(Some(ProbeReading { thermocouple: 0, internal: 6001 }));
    assert!(hot.is_overheating());
}

#[test]
fn temp_sensor_overheating_uses_the_mean() {
    let mut ts = TempSensor::new();
    ts.poll_sensor(Some(ProbeReading { thermocouple: 0, internal: 10000 }));
    ts.poll_sensor(Some(ProbeReading { thermocouple: 0, internal: 1000 }));
    // Mean 5500 is below the 6000 ceiling even though one sample was above.
    assert!(!ts.is_overheating());
}

#[test]
fn temp_sensor_negative_readings_average() {
    let mut ts = TempSensor::new();
    ts.poll_sensor(Some(ProbeReading { thermocouple: -2000, internal: -1000 }));
    ts.poll_sensor(Some(ProbeReading { thermocouple: -1000, internal: -2000 }));
    // Probe window holds -1500 and -500: mean -1000.
    assert_eq!(ts.get_sensor(), Some(-1000));
    assert_eq!(ts.get_internal_temperature(), Some(-1500));
}

#[test]
fn current_sensor_first_sample_stored_asis() {
    let mut cs = CurrentSensor::new();
    cs.add_value(1_000_000);
    assert_eq!(cs.values(), vec![1_000_000]);
}

#[test]
fn current_sensor_blends_with_newest() {
    let mut cs = CurrentSensor::new();
    cs.add_value(1000);
    cs.add_value(2000);
    // (99 * 1000 + 2000) / 100 = 1010.
    assert_eq!(cs.values(), vec![1000, 1010]);
    cs.add_value(3000);
    // The blend partner is the newest entry (1010), not the oldest (1000):
    // (99 * 1010 + 3000) / 100 = 1029.
    assert_eq!(cs.values(), vec![1000, 1010, 1029]);
}

#[test]
fn current_sensor_evicts_then_blends() {
    let mut cs = CurrentSensor::new();
    cs.add_value(500);
    for _ in 0..9 {
        cs.add_value(1000);
    }
    assert_eq!(cs.values().len(), 10);
    assert_eq!(cs.values()[0], 500);
    cs.add_value(2000);
    let v = cs.values();
    // The oldest sample (500) made room; the new one blended with the newest
    // survivor.
    assert_eq!(v.len(), 10);
    assert_ne!(v[0], 500);
    assert_eq!(*v.last().unwrap(), (99 * v[8] + 2000) / 100);
}

#[test]
fn current_sensor_never_reports_a_mean() {
    let mut cs = CurrentSensor::new();
    for _ in 0..50 {
        cs.add_value(3000);
    }
    // The window can never reach the hundred samples the mean would need.
    assert_eq!(cs.get_sensor(), None);
}

#[test]
fn current_sensor_predicates_are_safe_defaults() {
    // Motor-fault detection is disabled pending calibration: the predicates
    // report the fixed safe defaults.
    let cs = CurrentSensor::new();
    assert!(!cs.is_error());
    assert!(cs.is_standby());
    assert!(cs.is_running());
    assert!(!cs.is_overloaded());
}
