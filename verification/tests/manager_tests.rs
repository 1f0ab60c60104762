use ovenctl::buzzer::BuzzerManager;
use ovenctl::control::Controller;
use ovenctl::current_sensor::CurrentSensor;
use ovenctl::display::LcdDisplay;
use ovenctl::encoder::{DialSample, EncoderReader};
use ovenctl::manager::{display_temp, StateManager};
use ovenctl::state::{HaltReason, Oven};
use ovenctl::temp_sensor::{ProbeReading, TempSensor};

fn fresh_manager() -> StateManager {
    let hw = ovenctl::state::OvenControlHardware {
        display: LcdDisplay::new(),
        buzzer: BuzzerManager::new(),
        cook_ld: false,
        heater: false,
        motor: false,
    };
    StateManager::new(
        hw,
        CurrentSensor::new(),
        EncoderReader::new(256, 10, 50),
        EncoderReader::new(256, 0, 180),
        TempSensor::new(),
    )
}

fn still() -> DialSample {
    DialSample { direction: false, value: 256 }
}

fn dial_up(steps: u16) -> DialSample {
    DialSample { direction: false, value: 256 + steps }
}

fn probe(centi: i32) -> Option<ProbeReading> {
    // The reader adds the 500 centidegree calibration offset.
    Some(ProbeReading { thermocouple: centi - 500, internal: 2500 })
}

fn oven_of(m: &StateManager) -> &Oven {
    m.state.as_ref().unwrap()
}

fn bottom_of(m: &StateManager) -> &Vec<u8> {
    match oven_of(m) {
        Oven::OvenReady(s) => &s.hw.display.bottom,
        Oven::OvenPreRun(s) => &s.hw.display.bottom,
        Oven::Cooking(c) => &c.hw.display.bottom,
        Oven::LidOpen(s) => &s.hw.display.bottom,
        Oven::OvenHalt(s) => &s.hw.display.bottom,
    }
}

#[test]
fn hysteresis_shows_requested_when_close_above() {
    assert_eq!(display_temp(200, 20300), 200);
}

#[test]
fn hysteresis_shows_requested_when_close_below() {
    assert_eq!(display_temp(200, 19600), 200);
}

#[test]
fn hysteresis_quantizes_far_readings() {
    assert_eq!(display_temp(200, 15000), 150);
    assert_eq!(display_temp(200, 15399), 150);
}

#[test]
fn hysteresis_band_edges() {
    assert_eq!(display_temp(200, 20500), 200);
    assert_eq!(display_temp(200, 20501), 205);
    assert_eq!(display_temp(200, 19500), 200);
    assert_eq!(display_temp(200, 19499), 190);
}

#[test]
fn negative_readings_display_as_zero() {
    assert_eq!(display_temp(200, -1500), 0);
}

#[test]
fn manager_starts_ready() {
    let m = fresh_manager();
    assert_eq!(m.time, 0);
    assert_eq!(m.temp_requested, 50);
    assert_eq!(m.temp_actual, 0);
    assert!(matches!(oven_of(&m), Oven::OvenReady(_)));
}

#[test]
fn tick_applies_hysteresis_to_displayed_temperature() {
    let mut m = fresh_manager();
    // Dial the requested temperature up to 200 (30 steps of 5 degrees) and
    // feed a 203.00-degree filtered reading.
    m.enc_poll(true, probe(20300), dial_up(30), still());
    assert_eq!(m.temp_requested, 200);
    assert_eq!(m.temp_actual, 200);
    assert_eq!(m.temp_actual_raw, 203);
}

#[test]
fn tick_quantizes_far_reading() {
    let mut m = fresh_manager();
    m.enc_poll(true, probe(15000), dial_up(30), still());
    assert_eq!(m.temp_requested, 200);
    assert_eq!(m.temp_actual, 150);
    assert_eq!(m.temp_actual_raw, 150);
}

#[test]
fn tick_moves_time_dial_and_arms() {
    let mut m = fresh_manager();
    m.enc_poll(true, None, still(), DialSample { direction: false, value: 261 });
    assert_eq!(m.time, 5);
    assert!(matches!(oven_of(&m), Oven::OvenPreRun(_)));
}

#[test]
fn tick_redraws_status_line_on_change() {
    let mut m = fresh_manager();
    m.enc_poll(true, None, still(), DialSample { direction: false, value: 261 });
    let mut expected = b"T00:05 ---/050".to_vec();
    expected.push(0xDF);
    expected.push(b't');
    assert_eq!(&bottom_of(&m)[..], &expected[..]);
}

#[test]
fn tick_without_changes_keeps_status_line() {
    let mut m = fresh_manager();
    m.enc_poll(true, None, still(), DialSample { direction: false, value: 261 });
    let drawn = bottom_of(&m).clone();
    assert!(!drawn.is_empty());
    // A tick where no dial moves, no reading arrives and the time holds
    // leaves the status line untouched.
    m.enc_poll(true, None, still(), DialSample { direction: false, value: 261 });
    assert_eq!(bottom_of(&m), &drawn);
}

#[test]
fn closed_lid_rearms_when_time_is_set() {
    let mut m = fresh_manager();
    m.enc_poll(true, None, still(), DialSample { direction: false, value: 261 });
    assert_eq!(m.time, 5);
    // The lid opens, then closes: the same tick that recovers to ready also
    // re-arms the oven because a time is still dialed in.
    m.enc_poll(false, None, still(), DialSample { direction: false, value: 261 });
    assert!(matches!(oven_of(&m), Oven::LidOpen(_)));
    m.enc_poll(true, None, still(), DialSample { direction: false, value: 261 });
    assert_eq!(m.time, 5);
    assert!(matches!(oven_of(&m), Oven::OvenPreRun(_)));
}

#[test]
fn tick_escalates_probe_fault_to_halt() {
    let mut m = fresh_manager();
    for _ in 0..21 {
        m.enc_poll(true, None, still(), still());
    }
    // 21 consecutive missed polls: past the 2-second budget.
    let oven = oven_of(&m);
    assert_eq!(oven.halt_reason(), Some(HaltReason::TempSensorFailure));
}

#[test]
fn halted_manager_pins_time_and_screen() {
    let mut m = fresh_manager();
    m.enc_poll(true, None, still(), DialSample { direction: false, value: 266 });
    assert_eq!(m.time, 10);
    for _ in 0..21 {
        m.enc_poll(true, None, still(), still());
    }
    assert_eq!(oven_of(&m).halt_reason(), Some(HaltReason::TempSensorFailure));
    assert_eq!(m.time, 0);
    // Further ticks, buttons and duty computations change nothing visible.
    m.on_cook_btn();
    m.pid_poll(100);
    m.enc_poll(true, probe(20000), dial_up(5), still());
    assert_eq!(oven_of(&m).halt_reason(), Some(HaltReason::TempSensorFailure));
    assert_eq!(m.time, 0);
    assert!(bottom_of(&m).is_empty());
}

#[test]
fn full_cook_cycle_through_the_manager() {
    let mut m = fresh_manager();
    // Dial in one minute.
    m.enc_poll(true, None, still(), DialSample { direction: false, value: 257 });
    assert_eq!(m.time, 1);
    assert!(matches!(oven_of(&m), Oven::OvenPreRun(_)));
    // Press run.
    m.on_cook_btn();
    assert!(matches!(oven_of(&m), Oven::Cooking(_)));
    // One minute of ticks finishes the cook.
    for _ in 0..600 {
        m.enc_poll(true, probe(20000), still(), still());
    }
    assert_eq!(m.time, 0);
    assert!(matches!(oven_of(&m), Oven::OvenReady(_)));
}

#[test]
fn adc_poll_feeds_current_reader_only() {
    let mut m = fresh_manager();
    m.adc_poll(1500);
    m.adc_poll(2500);
    assert_eq!(m.current_sensor.values(), vec![1500, (99 * 1500 + 2500) / 100]);
    assert_eq!(m.time, 0);
    assert!(matches!(oven_of(&m), Oven::OvenReady(_)));
}

#[test]
fn debounce_burst_yields_one_transition() {
    let mut m = fresh_manager();
    m.enc_poll(true, None, still(), DialSample { direction: false, value: 261 });
    let mut c = Controller::new(m);
    assert!(matches!(oven_of(&c.manager), Oven::OvenPreRun(_)));
    // A burst of three edges within the debounce window: only the first acts.
    assert!(c.on_cook_btn_edge());
    assert!(matches!(oven_of(&c.manager), Oven::Cooking(_)));
    assert!(!c.on_cook_btn_edge());
    assert!(!c.on_cook_btn_edge());
    assert!(matches!(oven_of(&c.manager), Oven::Cooking(_)));
    // After the deferred clear the next edge acts again (aborting the cook).
    c.on_cook_btn_debounce_elapsed();
    assert!(c.on_cook_btn_edge());
    assert!(matches!(oven_of(&c.manager), Oven::OvenReady(_)));
}

#[test]
fn lid_edge_runs_tick_immediately_and_debounces() {
    let m = fresh_manager();
    let mut c = Controller::new(m);
    assert!(c.on_lid_edge(None, still(), still()));
    // The lid edge reported the lid open without waiting for the next poll.
    assert!(matches!(oven_of(&c.manager), Oven::LidOpen(_)));
    // A second edge within the window does nothing.
    assert!(!c.on_lid_edge(None, still(), still()));
    c.on_lid_debounce_elapsed();
    // The periodic tick with the lid closed recovers to ready.
    c.on_state_timer(true, None, still(), still());
    assert!(matches!(oven_of(&c.manager), Oven::OvenReady(_)));
}

#[test]
fn pid_timer_reaches_a_running_cook() {
    let mut m = fresh_manager();
    m.enc_poll(true, probe(20000), still(), DialSample { direction: false, value: 261 });
    m.on_cook_btn();
    let mut c = Controller::new(m);
    c.on_pid_timer(42);
    match oven_of(&c.manager) {
        Oven::Cooking(cook) => assert_eq!(cook.heater_percents, 42),
        _ => panic!("expected a running cook"),
    }
}
