use ovenctl::buzzer::BuzzerManager;
use ovenctl::current_sensor::CurrentSensor;
use ovenctl::display::{LcdDisplay, Message};
use ovenctl::state::{Cooking, HaltReason, LidOpen, Oven, OvenControlHardware, OvenPreRun, OvenReady};
use ovenctl::temp_sensor::{ProbeReading, TempSensor};

fn fresh_hw() -> OvenControlHardware {
    OvenControlHardware {
        display: LcdDisplay::new(),
        buzzer: BuzzerManager::new(),
        cook_ld: false,
        heater: false,
        motor: false,
    }
}

fn hw_of(oven: &Oven) -> &OvenControlHardware {
    match oven {
        Oven::OvenReady(s) => &s.hw,
        Oven::OvenPreRun(s) => &s.hw,
        Oven::Cooking(c) => &c.hw,
        Oven::LidOpen(s) => &s.hw,
        Oven::OvenHalt(s) => &s.hw,
    }
}

fn faulted_temp_sensor() -> TempSensor {
    let mut ts = TempSensor::new();
    for _ in 0..21 {
        ts.poll_sensor(None);
    }
    ts
}

#[test]
fn ready_arms_when_time_is_set() {
    let ready = OvenReady::new(fresh_hw());
    let (oven, time) = ready.on_settings(0, 200, 5);
    assert_eq!(time, 5);
    assert!(matches!(oven, Oven::OvenPreRun(_)));
    assert_eq!(hw_of(&oven).display.top, Message::PressRun);
}

#[test]
fn ready_stays_without_time() {
    let ready = OvenReady::new(fresh_hw());
    let (oven, time) = ready.on_settings(0, 200, 0);
    assert_eq!(time, 0);
    assert!(matches!(oven, Oven::OvenReady(_)));
}

#[test]
fn pre_run_starts_cook_on_button() {
    let armed = OvenPreRun::new(fresh_hw());
    let oven = armed.on_cook_btn();
    assert!(matches!(oven, Oven::Cooking(_)));
    let hw = hw_of(&oven);
    assert_eq!(hw.display.top, Message::Cooking);
    assert!(hw.motor);
    assert!(hw.cook_ld);
    assert!(!hw.heater);
    // One short acknowledgement beep.
    assert_eq!(hw.buzzer.periods, 3);
}

#[test]
fn pre_run_disarms_when_time_returns_to_zero() {
    let armed = OvenPreRun::new(fresh_hw());
    let (oven, time) = armed.on_settings(0, 200, 0);
    assert_eq!(time, 0);
    assert!(matches!(oven, Oven::OvenReady(_)));
    assert_eq!(hw_of(&oven).display.top, Message::Ready);
}

#[test]
fn open_lid_suspends_ready() {
    let ready = OvenReady::new(fresh_hw());
    let oven = ready.on_sensors(false, &TempSensor::new(), &CurrentSensor::new());
    assert!(matches!(oven, Oven::LidOpen(_)));
    assert_eq!(hw_of(&oven).display.top, Message::CloseLid);
}

#[test]
fn closed_lid_returns_to_ready() {
    let lid = LidOpen::new(fresh_hw());
    let oven = lid.on_sensors(true, &TempSensor::new(), &CurrentSensor::new());
    assert!(matches!(oven, Oven::OvenReady(_)));
    assert_eq!(hw_of(&oven).display.top, Message::Ready);
}

#[test]
fn lid_open_ignores_button() {
    let lid = LidOpen::new(fresh_hw());
    let oven = lid.on_cook_btn();
    assert!(matches!(oven, Oven::LidOpen(_)));
}

#[test]
fn temp_fault_halts_from_ready() {
    let ready = OvenReady::new(fresh_hw());
    let oven = ready.on_sensors(true, &faulted_temp_sensor(), &CurrentSensor::new());
    assert_eq!(oven.halt_reason(), Some(HaltReason::TempSensorFailure));
    let hw = hw_of(&oven);
    assert_eq!(hw.display.top, Message::FaultTempSensor);
    assert!(hw.display.bottom.is_empty());
    assert!(!hw.heater && !hw.motor && !hw.cook_ld);
}

#[test]
fn overheat_halts_from_ready() {
    let mut ts = TempSensor::new();
    ts.poll_sensor(Some(ProbeReading { thermocouple: 20000, internal: 7000 }));
    let ready = OvenReady::new(fresh_hw());
    let oven = ready.on_sensors(true, &ts, &CurrentSensor::new());
    assert_eq!(oven.halt_reason(), Some(HaltReason::Overheating));
    assert_eq!(hw_of(&oven).display.top, Message::FaultOverheat);
}

#[test]
fn fault_priority_beats_lid_open_while_cooking() {
    // Simultaneous probe fault and open lid during a cook: the probe fault
    // wins, the oven halts, and it never lands in the lid-open state.
    let cook = Cooking::new(fresh_hw());
    let oven = cook.on_sensors(false, &faulted_temp_sensor(), &CurrentSensor::new());
    assert_eq!(oven.halt_reason(), Some(HaltReason::TempSensorFailure));
    assert!(!matches!(oven, Oven::LidOpen(_)));
    let hw = hw_of(&oven);
    assert!(!hw.heater && !hw.motor && !hw.cook_ld);
}

#[test]
fn open_lid_shuts_down_a_cook() {
    let cook = Cooking::new(fresh_hw());
    let oven = cook.on_sensors(false, &TempSensor::new(), &CurrentSensor::new());
    assert!(matches!(oven, Oven::LidOpen(_)));
    let hw = hw_of(&oven);
    assert!(!hw.heater && !hw.motor && !hw.cook_ld);
    assert_eq!(hw.display.top, Message::CloseLid);
}

#[test]
fn cook_button_aborts_a_cook() {
    let cook = Cooking::new(fresh_hw());
    let oven = cook.on_cook_btn();
    assert!(matches!(oven, Oven::OvenReady(_)));
    let hw = hw_of(&oven);
    assert!(!hw.heater && !hw.motor && !hw.cook_ld);
}

#[test]
fn halt_constructors_record_each_reason() {
    assert_eq!(
        ovenctl::state::OvenHalt::overheating(fresh_hw()).halt_reason(),
        Some(HaltReason::Overheating)
    );
    assert_eq!(
        ovenctl::state::OvenHalt::temp_error(fresh_hw()).halt_reason(),
        Some(HaltReason::TempSensorFailure)
    );
    assert_eq!(
        ovenctl::state::OvenHalt::current_error(fresh_hw()).halt_reason(),
        Some(HaltReason::CurrentSensorFailure)
    );
    assert_eq!(
        ovenctl::state::OvenHalt::motor_uncontrolled(fresh_hw()).halt_reason(),
        Some(HaltReason::MotorUncontrolled)
    );
    assert_eq!(
        ovenctl::state::OvenHalt::motor_failed(fresh_hw()).halt_reason(),
        Some(HaltReason::MotorFailed)
    );
    assert_eq!(
        ovenctl::state::OvenHalt::motor_overload(fresh_hw()).halt_reason(),
        Some(HaltReason::MotorOverload)
    );
}

#[test]
fn halt_is_absorbing() {
    let ready = OvenReady::new(fresh_hw());
    let mut oven = ready.on_sensors(true, &faulted_temp_sensor(), &CurrentSensor::new());
    assert_eq!(oven.halt_reason(), Some(HaltReason::TempSensorFailure));
    for _ in 0..3 {
        oven = oven.on_cook_btn();
        assert_eq!(oven.halt_reason(), Some(HaltReason::TempSensorFailure));
        oven = oven.on_sensors(true, &TempSensor::new(), &CurrentSensor::new());
        assert_eq!(oven.halt_reason(), Some(HaltReason::TempSensorFailure));
        let (next, time) = oven.on_settings(200, 200, 42);
        oven = next;
        assert_eq!(time, 0);
        assert_eq!(oven.halt_reason(), Some(HaltReason::TempSensorFailure));
        oven.on_pid(80);
        assert_eq!(oven.halt_reason(), Some(HaltReason::TempSensorFailure));
    }
    let hw = hw_of(&oven);
    assert_eq!(hw.display.top, Message::FaultTempSensor);
    assert!(!hw.heater && !hw.motor && !hw.cook_ld);
}

#[test]
fn cooking_countdown_loses_a_minute_after_600_ticks() {
    let cook = Cooking::new(fresh_hw());
    let mut oven = Oven::Cooking(cook);
    let mut time: u16 = 3;
    for tick in 0..600 {
        assert_eq!(time, 3, "time changed early at tick {tick}");
        oven.on_buzzer_timer();
        let (next, t) = oven.on_settings(180, 200, time);
        oven = next;
        time = t;
    }
    assert_eq!(time, 2);
    assert!(matches!(oven, Oven::Cooking(_)));
}

#[test]
fn cooking_pre_chime_fires_exactly_once() {
    let cook = Cooking::new(fresh_hw());
    let mut oven = Oven::Cooking(cook);
    let mut time: u16 = 3;
    let mut chimes = 0;
    while time > 1 {
        oven.on_buzzer_timer();
        let quiet_before = hw_of(&oven).buzzer.periods == 0;
        let (next, t) = oven.on_settings(180, 200, time);
        oven = next;
        let sounding_after = hw_of(&oven).buzzer.periods > 0;
        if quiet_before && sounding_after {
            chimes += 1;
            // The chime lands exactly at the transition into the last minute.
            assert_eq!(t, 1);
            assert_eq!(hw_of(&oven).buzzer.periods, 10);
        }
        time = t;
    }
    assert_eq!(chimes, 1);
}

#[test]
fn cooking_finishes_to_ready_with_outputs_off() {
    let cook = Cooking::new(fresh_hw());
    let mut oven = Oven::Cooking(cook);
    let mut time: u16 = 1;
    let mut ticks = 0;
    while matches!(oven, Oven::Cooking(_)) {
        oven.on_buzzer_timer();
        let (next, t) = oven.on_settings(180, 200, time);
        oven = next;
        time = t;
        ticks += 1;
        assert!(ticks <= 600, "cook did not finish within the last minute");
    }
    assert_eq!(ticks, 600);
    assert_eq!(time, 0);
    assert!(matches!(oven, Oven::OvenReady(_)));
    let hw = hw_of(&oven);
    assert!(!hw.heater && !hw.motor && !hw.cook_ld);
    // The done chime is sounding.
    assert_eq!(hw.buzzer.periods, 25);
    assert_eq!(hw.display.top, Message::Ready);
}

#[test]
fn duty_window_drives_the_heater() {
    let mut cook = Cooking::new(fresh_hw());
    cook.on_pid(2);
    let mut oven = Oven::Cooking(cook);
    let mut time: u16 = 5;
    // Two ticks with duty left: heater energized.
    for _ in 0..2 {
        let (next, t) = oven.on_settings(180, 200, time);
        oven = next;
        time = t;
        assert!(hw_of(&oven).heater);
    }
    // Duty exhausted: heater de-energized.
    let (next, _) = oven.on_settings(180, 200, time);
    oven = next;
    assert!(!hw_of(&oven).heater);
}

#[test]
fn pid_override_on_overshoot() {
    // Measured temperature more than 30 degrees above the setpoint forces the
    // duty window to zero whatever the controller asked for.
    let mut cook = Cooking::new(fresh_hw());
    let (next, _) = cook.on_settings(231, 200, 5);
    let mut cook = match next {
        Oven::Cooking(c) => c,
        _ => panic!("cook should continue"),
    };
    assert_eq!(cook.setpoint, 200);
    assert_eq!(cook.temp_actual, 231);
    cook.on_pid(100);
    assert_eq!(cook.heater_percents, 0);
}

#[test]
fn pid_accepts_output_within_band() {
    let mut cook = Cooking::new(fresh_hw());
    let (next, _) = cook.on_settings(230, 200, 5);
    let mut cook = match next {
        Oven::Cooking(c) => c,
        _ => panic!("cook should continue"),
    };
    cook.on_pid(100);
    assert_eq!(cook.heater_percents, 100);
}

#[test]
fn pid_nonpositive_output_clears_window() {
    let mut cook = Cooking::new(fresh_hw());
    let (next, _) = cook.on_settings(100, 200, 5);
    let mut cook = match next {
        Oven::Cooking(c) => c,
        _ => panic!("cook should continue"),
    };
    cook.on_pid(0);
    assert_eq!(cook.heater_percents, 0);
    cook.on_pid(-40);
    assert_eq!(cook.heater_percents, 0);
}
