//! The oven state machine.
//!
//! Five mutually exclusive operating modes, each exclusively owning the
//! hardware output bundle while active. Transitions consume the old state and
//! produce the new one, so two states can never both drive the heater. `Halt`
//! records the fault that caused it and is terminal: every event leaves it
//! unchanged, and only a power cycle leaves it in the real device.
//!
//! Fault checks run in strict priority order — probe failure, overheat,
//! current-sensor failure, then the motor checks — and the first true
//! predicate wins.

use vstd::prelude::*;

use crate::buzzer::{BuzzerManager, DONE_BEEP_PERIODS, PRE_BEEP_PERIODS, RUN_BEEP_PERIODS};
use crate::current_sensor::CurrentSensor;
use crate::display::{same_display, LcdDisplay, Message};
use crate::temp_sensor::TempSensor;

verus! {

/// Ticks of the 100 ms settings timer that make one minute.
pub const MINUTE_TICKS: u16 = 600;

/// Setpoint the duty controller starts from when a cook begins, in degrees.
pub const INITIAL_SETPOINT: u16 = 50;

/// Degrees of overshoot beyond the setpoint at which the duty override cuts
/// the heater regardless of the controller output.
pub const OVERSHOOT_CUTOFF: u16 = 30;

/// The hardware output bundle: what the appliance is currently commanded to
/// do. Exactly one oven state owns it at any time. `motor` and `heater` are
/// logical levels (`true` means running and energized); whatever drives the
/// pins applies the motor's inverted polarity outside the library.
pub struct OvenControlHardware {
    pub display: LcdDisplay,
    pub buzzer: BuzzerManager,
    pub cook_ld: bool,
    pub heater: bool,
    pub motor: bool,
}

/// Why the oven locked up.
#[derive(Clone, Copy, Debug, PartialEq, Eq, Structural)]
pub enum HaltReason {
    Overheating,
    TempSensorFailure,
    CurrentSensorFailure,
    MotorUncontrolled,
    MotorFailed,
    MotorOverload,
}

/// The fault message each halt reason puts on the display.
pub open spec fn spec_fault_message(reason: HaltReason) -> Message {
    match reason {
        HaltReason::Overheating => Message::FaultOverheat,
        HaltReason::TempSensorFailure => Message::FaultTempSensor,
        HaltReason::CurrentSensorFailure => Message::FaultCurrentSensor,
        HaltReason::MotorUncontrolled => Message::FaultMotorUncontrolled,
        HaltReason::MotorFailed => Message::FaultMotorFailed,
        HaltReason::MotorOverload => Message::FaultMotorOverload,
    }
}

/// Waiting for a cook time to be dialed in.
pub struct OvenReady {
    pub hw: OvenControlHardware,
}

/// A cook time is set; waiting for the run button.
pub struct OvenPreRun {
    pub hw: OvenControlHardware,
}

/// The lid is open; nothing may start until it closes.
pub struct LidOpen {
    pub hw: OvenControlHardware,
}

/// Terminal fault state.
pub struct OvenHalt {
    pub hw: OvenControlHardware,
    pub reason: HaltReason,
}

/// Actively cooking: motor on, heater pulsed by the duty window.
pub struct Cooking {
    pub hw: OvenControlHardware,
    /// Ticks of the current 10-second duty window the heater still has to be
    /// energized for.
    pub heater_percents: u8,
    /// Ticks until the countdown loses the next minute; always in `1..=600`.
    pub minute_delay: u16,
    /// The measured temperature recorded at the last settings tick, fed to
    /// the duty controller.
    pub temp_actual: u16,
    /// Mirror of the duty controller's setpoint, in degrees.
    pub setpoint: u16,
}

impl Cooking {
    pub open spec fn wf(self) -> bool {
        1 <= self.minute_delay <= MINUTE_TICKS
    }
}

/// The oven: exactly one operating mode, owning the outputs.
pub enum Oven {
    OvenReady(OvenReady),
    OvenPreRun(OvenPreRun),
    Cooking(Cooking),
    LidOpen(LidOpen),
    OvenHalt(OvenHalt),
}

impl Oven {
    /// The output bundle of whichever state is active.
    pub open spec fn hw(self) -> OvenControlHardware {
        match self {
            Oven::OvenReady(s) => s.hw,
            Oven::OvenPreRun(s) => s.hw,
            Oven::Cooking(s) => s.hw,
            Oven::LidOpen(s) => s.hw,
            Oven::OvenHalt(s) => s.hw,
        }
    }

    /// The recorded fault, in the halt state.
    pub open spec fn halt_reason_of(self) -> HaltReason
        recommends
            self is OvenHalt,
    {
        match self {
            Oven::OvenHalt(s) => s.reason,
            _ => arbitrary(),
        }
    }

    /// The cooking fields, in the cooking state.
    pub open spec fn cooking_of(self) -> Cooking
        recommends
            self is Cooking,
    {
        match self {
            Oven::Cooking(c) => c,
            _ => arbitrary(),
        }
    }

    /// The same state with its output bundle replaced.
    pub open spec fn with_hw(self, hw: OvenControlHardware) -> Oven {
        match self {
            Oven::OvenReady(_) => Oven::OvenReady(OvenReady { hw }),
            Oven::OvenPreRun(_) => Oven::OvenPreRun(OvenPreRun { hw }),
            Oven::Cooking(c) => Oven::Cooking(Cooking { hw, ..c }),
            Oven::LidOpen(_) => Oven::LidOpen(LidOpen { hw }),
            Oven::OvenHalt(s) => Oven::OvenHalt(OvenHalt { hw, ..s }),
        }
    }

    /// The cooking fields are well formed whenever the oven is cooking; a
    /// halted oven never leaves an output energized; and the heater and the
    /// motor are energized only while actively cooking — no other state ever
    /// leaves them running.
    pub open spec fn wf(self) -> bool {
        &&& self is Cooking ==> self.cooking_of().wf()
        &&& self is OvenHalt ==> outputs_off(self.hw())
        &&& self.hw().heater ==> self is Cooking
        &&& self.hw().motor ==> self is Cooking
    }
}

/// `new` shows message `m` on the top line and leaves everything else of
/// `from` alone.
pub open spec fn shows_message(new: OvenControlHardware, from: OvenControlHardware, m: Message) -> bool {
    &&& new.display.top == m
    &&& new.display.bottom@ == from.display.bottom@
    &&& new.buzzer == from.buzzer
    &&& new.cook_ld == from.cook_ld
    &&& new.heater == from.heater
    &&& new.motor == from.motor
}

/// The bundle after one 100 ms buzzer tick: only the beep countdown moves.
pub open spec fn hw_after_buzzer_tick(hw: OvenControlHardware) -> OvenControlHardware {
    OvenControlHardware { buzzer: hw.buzzer.spec_tick(), ..hw }
}

/// The lamp, the heater and the motor are all de-energized.
pub open spec fn outputs_off(hw: OvenControlHardware) -> bool {
    &&& !hw.cook_ld
    &&& !hw.heater
    &&& !hw.motor
}

/// `r` is the halt state entered from bundle `from` for `reason`: the display
/// is cleared down to the fault message, and every output is de-energized —
/// a fault never leaves the heater or the motor running.
pub open spec fn halted_with(r: Oven, from: OvenControlHardware, reason: HaltReason) -> bool {
    &&& r is OvenHalt
    &&& r.halt_reason_of() == reason
    &&& r.hw().display.top == spec_fault_message(reason)
    &&& r.hw().display.bottom@ == Seq::<u8>::empty()
    &&& r.hw().buzzer == from.buzzer
    &&& outputs_off(r.hw())
}

/// The first fault, in priority order, that the sensor readers report while
/// the motor is expected to stand still.
pub open spec fn first_standby_fault(ts: TempSensor, cs: CurrentSensor) -> Option<HaltReason> {
    if ts.spec_is_error() {
        Some(HaltReason::TempSensorFailure)
    } else if ts.spec_is_overheating() {
        Some(HaltReason::Overheating)
    } else if cs.spec_is_error() {
        Some(HaltReason::CurrentSensorFailure)
    } else if !cs.spec_is_standby() {
        Some(HaltReason::MotorUncontrolled)
    } else {
        None
    }
}

/// The first fault, in priority order, that the sensor readers report while
/// the motor is expected to run.
pub open spec fn first_cooking_fault(ts: TempSensor, cs: CurrentSensor) -> Option<HaltReason> {
    if ts.spec_is_error() {
        Some(HaltReason::TempSensorFailure)
    } else if ts.spec_is_overheating() {
        Some(HaltReason::Overheating)
    } else if cs.spec_is_error() {
        Some(HaltReason::CurrentSensorFailure)
    } else if !cs.spec_is_running() {
        Some(HaltReason::MotorFailed)
    } else if cs.spec_is_overloaded() {
        Some(HaltReason::MotorOverload)
    } else {
        None
    }
}

/// Builds the halt state: shuts every output down and shows the fault
/// message; the display is never written again.
fn enter_halt(mut hw: OvenControlHardware, reason: HaltReason) -> (r: Oven)
    ensures
        halted_with(r, hw, reason),
{
    let m = match reason {
        HaltReason::Overheating => Message::FaultOverheat,
        HaltReason::TempSensorFailure => Message::FaultTempSensor,
        HaltReason::CurrentSensorFailure => Message::FaultCurrentSensor,
        HaltReason::MotorUncontrolled => Message::FaultMotorUncontrolled,
        HaltReason::MotorFailed => Message::FaultMotorFailed,
        HaltReason::MotorOverload => Message::FaultMotorOverload,
    };
    hw.cook_ld = false;
    hw.heater = false;
    hw.motor = false;
    hw.display.error_message(m);
    Oven::OvenHalt(OvenHalt { hw, reason })
}

impl OvenHalt {
    /// Halt for an ambient-overheat fault.
    pub fn overheating(hw: OvenControlHardware) -> (r: Oven)
        ensures
            halted_with(r, hw, HaltReason::Overheating),
    {
        enter_halt(hw, HaltReason::Overheating)
    }

    /// Halt for an unresponsive temperature probe.
    pub fn temp_error(hw: OvenControlHardware) -> (r: Oven)
        ensures
            halted_with(r, hw, HaltReason::TempSensorFailure),
    {
        enter_halt(hw, HaltReason::TempSensorFailure)
    }

    /// Halt for a current-sensor fault.
    pub fn current_error(hw: OvenControlHardware) -> (r: Oven)
        ensures
            halted_with(r, hw, HaltReason::CurrentSensorFailure),
    {
        enter_halt(hw, HaltReason::CurrentSensorFailure)
    }

    /// Halt because the motor draws current while no state commands it.
    pub fn motor_uncontrolled(hw: OvenControlHardware) -> (r: Oven)
        ensures
            halted_with(r, hw, HaltReason::MotorUncontrolled),
    {
        enter_halt(hw, HaltReason::MotorUncontrolled)
    }

    /// Halt because the motor stopped turning while cooking.
    pub fn motor_failed(hw: OvenControlHardware) -> (r: Oven)
        ensures
            halted_with(r, hw, HaltReason::MotorFailed),
    {
        enter_halt(hw, HaltReason::MotorFailed)
    }

    /// Halt because the motor is overloaded.
    pub fn motor_overload(hw: OvenControlHardware) -> (r: Oven)
        ensures
            halted_with(r, hw, HaltReason::MotorOverload),
    {
        enter_halt(hw, HaltReason::MotorOverload)
    }
}

impl OvenReady {
    /// Enters the ready state, announcing it on the display.
    pub fn new(mut hw: OvenControlHardware) -> (r: OvenReady)
        ensures
            shows_message(r.hw, hw, Message::Ready),
    {
        hw.display.message(Message::Ready);
        OvenReady { hw }
    }
}

impl OvenPreRun {
    /// Enters the armed state, asking for the run button.
    pub fn new(mut hw: OvenControlHardware) -> (r: OvenPreRun)
        ensures
            shows_message(r.hw, hw, Message::PressRun),
    {
        hw.display.message(Message::PressRun);
        OvenPreRun { hw }
    }
}

impl LidOpen {
    /// Enters the lid-open state, asking for the lid to be closed.
    pub fn new(mut hw: OvenControlHardware) -> (r: LidOpen)
        ensures
            shows_message(r.hw, hw, Message::CloseLid),
    {
        hw.display.message(Message::CloseLid);
        LidOpen { hw }
    }
}

/// `r` is a fresh cooking state entered from bundle `from`: the motor starts
/// at once, the cook lamp lights, a short beep acknowledges the button, and
/// the duty window starts empty with a full minute ahead.
pub open spec fn cooking_started(r: Oven, from: OvenControlHardware) -> bool {
    &&& r is Cooking
    &&& r.cooking_of().hw.display.top == Message::Cooking
    &&& r.cooking_of().hw.display.bottom@ == from.display.bottom@
    &&& r.cooking_of().hw.buzzer == from.buzzer.spec_beep(RUN_BEEP_PERIODS)
    &&& r.cooking_of().hw.cook_ld == true
    &&& r.cooking_of().hw.heater == from.heater
    &&& r.cooking_of().hw.motor == true
    &&& r.cooking_of().heater_percents == 0
    &&& r.cooking_of().minute_delay == MINUTE_TICKS
    &&& r.cooking_of().temp_actual == 0
    &&& r.cooking_of().setpoint == INITIAL_SETPOINT
}

impl Cooking {
    /// Starts a cook: lights the lamp, starts the motor, beeps once, and arms
    /// an empty duty window so the heater stays off until the first duty
    /// computation.
    pub fn new(mut hw: OvenControlHardware) -> (r: Cooking)
        ensures
            cooking_started(Oven::Cooking(r), hw),
            r.wf(),
    {
        hw.display.message(Message::Cooking);
        hw.motor = true;
        hw.cook_ld = true;
        hw.buzzer.run_beep();
        Cooking {
            hw,
            heater_percents: 0,
            minute_delay: MINUTE_TICKS,
            temp_actual: 0,
            setpoint: INITIAL_SETPOINT,
        }
    }

    /// De-energizes lamp, heater and motor.
    pub fn shutdown(&mut self)
        ensures
            final(self).hw.display == old(self).hw.display,
            final(self).hw.buzzer == old(self).hw.buzzer,
            outputs_off(final(self).hw),
            final(self).heater_percents == old(self).heater_percents,
            final(self).minute_delay == old(self).minute_delay,
            final(self).temp_actual == old(self).temp_actual,
            final(self).setpoint == old(self).setpoint,
    {
        self.hw.cook_ld = false;
        self.hw.heater = false;
        self.hw.motor = false;
    }
}

/// `r` is the ready state entered after a shutdown from bundle `from`: the
/// ready message is up, the given buzzer state is kept, and every output is
/// de-energized.
pub open spec fn ready_after_shutdown(r: Oven, from: OvenControlHardware, buzzer: BuzzerManager) -> bool {
    &&& r is OvenReady
    &&& r.hw().display.top == Message::Ready
    &&& r.hw().display.bottom@ == from.display.bottom@
    &&& r.hw().buzzer == buzzer
    &&& outputs_off(r.hw())
}

/// What the sensor check does to a state whose motor is expected to stand
/// still (ready, armed): the first fault halts; an open lid yields the
/// lid-open state; otherwise the state `stay` survives untouched.
pub open spec fn guard_on_sensors_spec(
    stay: Oven,
    hw0: OvenControlHardware,
    lid: bool,
    ts: TempSensor,
    cs: CurrentSensor,
    r: Oven,
) -> bool {
    match first_standby_fault(ts, cs) {
        Some(reason) => halted_with(r, hw0, reason),
        None => if !lid {
            r is LidOpen && shows_message(r.hw(), hw0, Message::CloseLid)
        } else {
            r == stay
        },
    }
}

/// What the sensor check does to the lid-open state: the first fault halts; a
/// closed lid returns to ready; otherwise the state survives untouched.
pub open spec fn lid_on_sensors_spec(
    s: LidOpen,
    lid: bool,
    ts: TempSensor,
    cs: CurrentSensor,
    r: Oven,
) -> bool {
    match first_standby_fault(ts, cs) {
        Some(reason) => halted_with(r, s.hw, reason),
        None => if lid {
            r is OvenReady && shows_message(r.hw(), s.hw, Message::Ready)
        } else {
            r == Oven::LidOpen(s)
        },
    }
}

/// What the sensor check does while cooking: the first fault halts; an open
/// lid shuts every output down and yields the lid-open state; otherwise the
/// cook survives untouched.
pub open spec fn cooking_on_sensors_spec(
    c: Cooking,
    lid: bool,
    ts: TempSensor,
    cs: CurrentSensor,
    r: Oven,
) -> bool {
    match first_cooking_fault(ts, cs) {
        Some(reason) => halted_with(r, c.hw, reason),
        None => if !lid {
            &&& r is LidOpen
            &&& r.hw().display.top == Message::CloseLid
            &&& r.hw().display.bottom@ == c.hw.display.bottom@
            &&& r.hw().buzzer == c.hw.buzzer
            &&& outputs_off(r.hw())
        } else {
            r == Oven::Cooking(c)
        },
    }
}

/// What one 100 ms settings tick does while cooking: the measured temperature
/// is recorded and the setpoint follows the dial; the heater is energized for
/// this tick exactly when the duty window still has ticks left, spending one;
/// the minute counter loses a tick, and on reaching zero resets and takes a
/// minute off the remaining time — chiming once at the instant the last
/// minute begins; at zero remaining time the done chime sounds, every output
/// is de-energized, and the oven returns to ready.
pub open spec fn cooking_on_settings_spec(
    c: Cooking,
    temp_actual: u16,
    temp_requested: u16,
    time: u16,
    r: Oven,
    rt: u16,
) -> bool {
    let minute_rolled = c.minute_delay == 1;
    let next_time: int = if minute_rolled {
        if time == 0 { 0 } else { time - 1 }
    } else {
        time as int
    };
    let buzzer1 = if minute_rolled && next_time == 1 {
        c.hw.buzzer.spec_beep(PRE_BEEP_PERIODS)
    } else {
        c.hw.buzzer
    };
    let heater_on = c.heater_percents > 0;
    &&& rt == next_time
    &&& if next_time == 0 {
        &&& r is OvenReady
        &&& r.hw().display.top == Message::Ready
        &&& r.hw().display.bottom@ == c.hw.display.bottom@
        &&& r.hw().buzzer == buzzer1.spec_beep(DONE_BEEP_PERIODS)
        &&& outputs_off(r.hw())
    } else {
        &&& r is Cooking
        &&& same_display(r.cooking_of().hw.display, c.hw.display)
        &&& r.cooking_of().hw.buzzer == buzzer1
        &&& r.cooking_of().hw.cook_ld == c.hw.cook_ld
        &&& r.cooking_of().hw.heater == heater_on
        &&& r.cooking_of().hw.motor == c.hw.motor
        &&& r.cooking_of().heater_percents == if heater_on { c.heater_percents - 1 } else { 0int }
        &&& r.cooking_of().minute_delay == if minute_rolled { MINUTE_TICKS as int } else { c.minute_delay - 1 }
        &&& r.cooking_of().temp_actual == temp_actual
        &&& r.cooking_of().setpoint == temp_requested
    }
}

/// What one duty computation does: the new duty window gets the controller's
/// output as its heater-on tick count, except that a non-positive output, or
/// a measured temperature more than `OVERSHOOT_CUTOFF` degrees above the
/// setpoint, forces the window to zero — a hard safety override that beats
/// the controller.
pub open spec fn cooking_on_pid_spec(c: Cooking, control: i32, c2: Cooking) -> bool {
    &&& c2.heater_percents == if control <= 0 || c.temp_actual > c.setpoint + OVERSHOOT_CUTOFF {
        0int
    } else {
        control as int
    }
    &&& c2.hw == c.hw
    &&& c2.minute_delay == c.minute_delay
    &&& c2.temp_actual == c.temp_actual
    &&& c2.setpoint == c.setpoint
}

impl OvenReady {
    /// The run button does nothing while no time is set.
    pub fn on_cook_btn(self) -> (r: Oven)
        ensures
            r == Oven::OvenReady(self),
    {
        Oven::OvenReady(self)
    }

    /// The periodic sensor check.
    pub fn on_sensors(self, lid: bool, temp_sensor: &TempSensor, current_sensor: &CurrentSensor) -> (r: Oven)
        requires
            temp_sensor.wf(),
        ensures
            guard_on_sensors_spec(Oven::OvenReady(self), self.hw, lid, *temp_sensor, *current_sensor, r),
    {
        if temp_sensor.is_error() {
            OvenHalt::temp_error(self.hw)
        } else if temp_sensor.is_overheating() {
            OvenHalt::overheating(self.hw)
        } else if current_sensor.is_error() {
            OvenHalt::current_error(self.hw)
        } else if !current_sensor.is_standby() {
            OvenHalt::motor_uncontrolled(self.hw)
        } else if !lid {
            Oven::LidOpen(LidOpen::new(self.hw))
        } else {
            Oven::OvenReady(self)
        }
    }

    /// A dialed-in time arms the oven.
    pub fn on_settings(self, _temp_actual: u16, _temp_requested: u16, time: u16) -> (r: (Oven, u16))
        ensures
            r.1 == time,
            if time == 0 {
                r.0 == Oven::OvenReady(self)
            } else {
                r.0 is OvenPreRun && shows_message(r.0.hw(), self.hw, Message::PressRun)
            },
    {
        if time == 0 {
            (Oven::OvenReady(self), time)
        } else {
            (Oven::OvenPreRun(OvenPreRun::new(self.hw)), time)
        }
    }
}

impl OvenPreRun {
    /// The run button starts the cook.
    pub fn on_cook_btn(self) -> (r: Oven)
        ensures
            cooking_started(r, self.hw),
            r.wf(),
    {
        Oven::Cooking(Cooking::new(self.hw))
    }

    /// The periodic sensor check.
    pub fn on_sensors(self, lid: bool, temp_sensor: &TempSensor, current_sensor: &CurrentSensor) -> (r: Oven)
        requires
            temp_sensor.wf(),
        ensures
            guard_on_sensors_spec(Oven::OvenPreRun(self), self.hw, lid, *temp_sensor, *current_sensor, r),
    {
        if temp_sensor.is_error() {
            OvenHalt::temp_error(self.hw)
        } else if temp_sensor.is_overheating() {
            OvenHalt::overheating(self.hw)
        } else if current_sensor.is_error() {
            OvenHalt::current_error(self.hw)
        } else if !current_sensor.is_standby() {
            OvenHalt::motor_uncontrolled(self.hw)
        } else if !lid {
            Oven::LidOpen(LidOpen::new(self.hw))
        } else {
            Oven::OvenPreRun(self)
        }
    }

    /// Dialing the time back to zero disarms the oven.
    pub fn on_settings(self, _temp_actual: u16, _temp_requested: u16, time: u16) -> (r: (Oven, u16))
        ensures
            r.1 == time,
            if time == 0 {
                r.0 is OvenReady && shows_message(r.0.hw(), self.hw, Message::Ready)
            } else {
                r.0 == Oven::OvenPreRun(self)
            },
    {
        if time == 0 {
            (Oven::OvenReady(OvenReady::new(self.hw)), time)
        } else {
            (Oven::OvenPreRun(self), time)
        }
    }
}

impl LidOpen {
    /// Cooking cannot start while the lid is open.
    pub fn on_cook_btn(self) -> (r: Oven)
        ensures
            r == Oven::LidOpen(self),
    {
        Oven::LidOpen(self)
    }

    /// The periodic sensor check.
    pub fn on_sensors(self, lid: bool, temp_sensor: &TempSensor, current_sensor: &CurrentSensor) -> (r: Oven)
        requires
            temp_sensor.wf(),
        ensures
            lid_on_sensors_spec(self, lid, *temp_sensor, *current_sensor, r),
    {
        if temp_sensor.is_error() {
            OvenHalt::temp_error(self.hw)
        } else if temp_sensor.is_overheating() {
            OvenHalt::overheating(self.hw)
        } else if current_sensor.is_error() {
            OvenHalt::current_error(self.hw)
        } else if !current_sensor.is_standby() {
            OvenHalt::motor_uncontrolled(self.hw)
        } else if lid {
            Oven::OvenReady(OvenReady::new(self.hw))
        } else {
            Oven::LidOpen(self)
        }
    }

    /// Settings pass through; the time is not consumed while the lid is open.
    pub fn on_settings(self, _temp_actual: u16, _temp_requested: u16, time: u16) -> (r: (Oven, u16))
        ensures
            r == (Oven::LidOpen(self), time),
    {
        (Oven::LidOpen(self), time)
    }
}

impl OvenHalt {
    /// Terminal: the button is ignored.
    pub fn on_cook_btn(self) -> (r: Oven)
        ensures
            r == Oven::OvenHalt(self),
    {
        Oven::OvenHalt(self)
    }

    /// Terminal: sensor readings are ignored.
    pub fn on_sensors(self, _lid: bool, _temp_sensor: &TempSensor, _current_sensor: &CurrentSensor) -> (r: Oven)
        ensures
            r == Oven::OvenHalt(self),
    {
        Oven::OvenHalt(self)
    }

    /// Terminal: settings are ignored and the remaining time is forced to
    /// zero.
    pub fn on_settings(self, _temp_actual: u16, _temp_requested: u16, _time: u16) -> (r: (Oven, u16))
        ensures
            r == (Oven::OvenHalt(self), 0u16),
    {
        (Oven::OvenHalt(self), 0)
    }
}

impl Cooking {
    /// The run button aborts the cook: outputs shut down, back to ready.
    pub fn on_cook_btn(self) -> (r: Oven)
        ensures
            ready_after_shutdown(r, self.hw, self.hw.buzzer),
    {
        let mut s = self;
        s.shutdown();
        Oven::OvenReady(OvenReady::new(s.hw))
    }

    /// The periodic sensor check, with the motor checks of a running cook.
    pub fn on_sensors(self, lid: bool, temp_sensor: &TempSensor, current_sensor: &CurrentSensor) -> (r: Oven)
        requires
            temp_sensor.wf(),
            self.wf(),
        ensures
            cooking_on_sensors_spec(self, lid, *temp_sensor, *current_sensor, r),
            r.wf(),
    {
        if temp_sensor.is_error() {
            OvenHalt::temp_error(self.hw)
        } else if temp_sensor.is_overheating() {
            OvenHalt::overheating(self.hw)
        } else if current_sensor.is_error() {
            OvenHalt::current_error(self.hw)
        } else if !current_sensor.is_running() {
            OvenHalt::motor_failed(self.hw)
        } else if current_sensor.is_overloaded() {
            OvenHalt::motor_overload(self.hw)
        } else if !lid {
            let mut s = self;
            s.shutdown();
            Oven::LidOpen(LidOpen::new(s.hw))
        } else {
            Oven::Cooking(self)
        }
    }

    /// One 100 ms tick of the cook.
    pub fn on_settings(self, temp_actual: u16, temp_requested: u16, time: u16) -> (r: (Oven, u16))
        requires
            self.wf(),
        ensures
            cooking_on_settings_spec(self, temp_actual, temp_requested, time, r.0, r.1),
            r.0.wf(),
    {
        let mut s = self;
        // Saved for the duty computation. It will be slightly stale there,
        // but heating has huge inertia.
        s.temp_actual = temp_actual;
        if s.setpoint != temp_requested {
            s.setpoint = temp_requested;
        }
        if s.heater_percents > 0 {
            s.hw.heater = true;
            s.heater_percents = s.heater_percents - 1;
        } else {
            s.hw.heater = false;
        }
        s.minute_delay = s.minute_delay - 1;
        let next_time: u16 = if s.minute_delay == 0 {
            s.minute_delay = MINUTE_TICKS;
            let next: u16 = if time == 0 { 0 } else { time - 1 };
            if next == 1 {
                // Guarded by the instant the countdown enters the last
                // minute, not by the level, so the chime cannot repeat.
                s.hw.buzzer.pre_beep();
            }
            next
        } else {
            time
        };
        if next_time == 0 {
            s.hw.buzzer.done_beep();
            s.shutdown();
            (Oven::OvenReady(OvenReady::new(s.hw)), next_time)
        } else {
            (Oven::Cooking(s), next_time)
        }
    }

    /// One duty computation from the controller's rounded output.
    pub fn on_pid(&mut self, control: i32)
        requires
            control <= u8::MAX,
        ensures
            cooking_on_pid_spec(*old(self), control, *final(self)),
    {
        if control <= 0 || self.temp_actual as u32 > self.setpoint as u32 + OVERSHOOT_CUTOFF as u32 {
            self.heater_percents = 0;
        } else {
            self.heater_percents = control as u8;
        }
    }
}

/// Law: fault checks beat the lid. If the temperature probe has faulted
/// while the lid is open during a cook, the sensor check halts with the
/// probe fault; the oven never lands in the lid-open state.
pub proof fn lemma_fault_priority(c: Cooking, ts: TempSensor, cs: CurrentSensor, r: Oven)
    requires
        cooking_on_sensors_spec(c, false, ts, cs, r),
        ts.spec_is_error(),
    ensures
        r is OvenHalt,
        r.halt_reason_of() == HaltReason::TempSensorFailure,
        !(r is LidOpen),
{
}

impl Oven {
    /// Dispatches the cook button to the active state.
    pub fn on_cook_btn(self) -> (r: Oven)
        requires
            self.wf(),
        ensures
            r.wf(),
            match self {
                Oven::OvenReady(s) => r == Oven::OvenReady(s),
                Oven::OvenPreRun(s) => cooking_started(r, s.hw),
                Oven::Cooking(c) => ready_after_shutdown(r, c.hw, c.hw.buzzer),
                Oven::LidOpen(s) => r == Oven::LidOpen(s),
                Oven::OvenHalt(s) => r == Oven::OvenHalt(s),
            },
    {
        match self {
            Oven::OvenReady(s) => s.on_cook_btn(),
            Oven::OvenPreRun(s) => s.on_cook_btn(),
            Oven::Cooking(c) => c.on_cook_btn(),
            Oven::LidOpen(s) => s.on_cook_btn(),
            Oven::OvenHalt(s) => s.on_cook_btn(),
        }
    }

    /// Dispatches the periodic sensor check to the active state.
    pub fn on_sensors(self, lid: bool, temp_sensor: &TempSensor, current_sensor: &CurrentSensor) -> (r: Oven)
        requires
            self.wf(),
            temp_sensor.wf(),
        ensures
            r.wf(),
            match self {
                Oven::OvenReady(s) => guard_on_sensors_spec(
                    Oven::OvenReady(s), s.hw, lid, *temp_sensor, *current_sensor, r),
                Oven::OvenPreRun(s) => guard_on_sensors_spec(
                    Oven::OvenPreRun(s), s.hw, lid, *temp_sensor, *current_sensor, r),
                Oven::Cooking(c) => cooking_on_sensors_spec(c, lid, *temp_sensor, *current_sensor, r),
                Oven::LidOpen(s) => lid_on_sensors_spec(s, lid, *temp_sensor, *current_sensor, r),
                Oven::OvenHalt(s) => r == Oven::OvenHalt(s),
            },
    {
        match self {
            Oven::OvenReady(s) => s.on_sensors(lid, temp_sensor, current_sensor),
            Oven::OvenPreRun(s) => s.on_sensors(lid, temp_sensor, current_sensor),
            Oven::Cooking(c) => c.on_sensors(lid, temp_sensor, current_sensor),
            Oven::LidOpen(s) => s.on_sensors(lid, temp_sensor, current_sensor),
            Oven::OvenHalt(s) => s.on_sensors(lid, temp_sensor, current_sensor),
        }
    }

    /// Dispatches one settings tick to the active state; the second result is
    /// the remaining time the manager must adopt.
    pub fn on_settings(self, temp_actual: u16, temp_requested: u16, time: u16) -> (r: (Oven, u16))
        requires
            self.wf(),
        ensures
            r.0.wf(),
            match self {
                Oven::OvenReady(s) => r.1 == time && if time == 0 {
                    r.0 == Oven::OvenReady(s)
                } else {
                    r.0 is OvenPreRun && shows_message(r.0.hw(), s.hw, Message::PressRun)
                },
                Oven::OvenPreRun(s) => r.1 == time && if time == 0 {
                    r.0 is OvenReady && shows_message(r.0.hw(), s.hw, Message::Ready)
                } else {
                    r.0 == Oven::OvenPreRun(s)
                },
                Oven::Cooking(c) => cooking_on_settings_spec(c, temp_actual, temp_requested, time, r.0, r.1),
                Oven::LidOpen(s) => r == (Oven::LidOpen(s), time),
                Oven::OvenHalt(s) => r == (Oven::OvenHalt(s), 0u16),
            },
    {
        match self {
            Oven::OvenReady(s) => s.on_settings(temp_actual, temp_requested, time),
            Oven::OvenPreRun(s) => s.on_settings(temp_actual, temp_requested, time),
            Oven::Cooking(c) => c.on_settings(temp_actual, temp_requested, time),
            Oven::LidOpen(s) => s.on_settings(temp_actual, temp_requested, time),
            Oven::OvenHalt(s) => s.on_settings(temp_actual, temp_requested, time),
        }
    }

    /// Dispatches one duty computation; only a running cook recomputes its
    /// window.
    pub fn on_pid(&mut self, control: i32)
        requires
            old(self).wf(),
            control <= u8::MAX,
        ensures
            final(self).wf(),
            match *old(self) {
                Oven::Cooking(c) => *final(self) is Cooking
                    && cooking_on_pid_spec(c, control, final(self).cooking_of()),
                _ => *final(self) == *old(self),
            },
    {
        match self {
            Oven::Cooking(c) => c.on_pid(control),
            _ => (),
        }
    }

    /// The oven sits in the terminal fault state.
    pub fn is_halt(&self) -> (r: bool)
        ensures
            r == (*self is OvenHalt),
    {
        match self {
            Oven::OvenHalt(_) => true,
            _ => false,
        }
    }

    /// The recorded fault, if the oven has halted.
    pub fn halt_reason(&self) -> (r: Option<HaltReason>)
        ensures
            *self is OvenHalt ==> r == Some(self.halt_reason_of()),
            !(*self is OvenHalt) ==> r is None,
    {
        match self {
            Oven::OvenHalt(s) => Some(s.reason),
            _ => None,
        }
    }

    /// Ticks the buzzer countdown of the active state's bundle.
    pub fn on_buzzer_timer(&mut self)
        ensures
            *final(self) == old(self).with_hw(hw_after_buzzer_tick(old(self).hw())),
    {
        match self {
            Oven::OvenReady(s) => s.hw.buzzer.on_timer(),
            Oven::OvenPreRun(s) => s.hw.buzzer.on_timer(),
            Oven::Cooking(c) => c.hw.buzzer.on_timer(),
            Oven::LidOpen(s) => s.hw.buzzer.on_timer(),
            Oven::OvenHalt(s) => s.hw.buzzer.on_timer(),
        }
    }

    /// Refreshes the status line of the active state's display.
    pub fn refresh_status(&mut self, time: u16, temp_actual: u16, temp_requested: u16)
        ensures
            old(self).with_hw(final(self).hw()) == *final(self),
            final(self).hw().display.top == old(self).hw().display.top,
            final(self).hw().display.bottom@
                == crate::display::spec_status_line(time, temp_actual, temp_requested),
            final(self).hw().buzzer == old(self).hw().buzzer,
            final(self).hw().cook_ld == old(self).hw().cook_ld,
            final(self).hw().heater == old(self).hw().heater,
            final(self).hw().motor == old(self).hw().motor,
    {
        match self {
            Oven::OvenReady(s) => s.hw.display.state(time, temp_actual, temp_requested),
            Oven::OvenPreRun(s) => s.hw.display.state(time, temp_actual, temp_requested),
            Oven::Cooking(c) => c.hw.display.state(time, temp_actual, temp_requested),
            Oven::LidOpen(s) => s.hw.display.state(time, temp_actual, temp_requested),
            Oven::OvenHalt(s) => s.hw.display.state(time, temp_actual, temp_requested),
        }
    }
}

} // verus!
