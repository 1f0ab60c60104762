//! Per-tick orchestration.
//!
//! The manager owns the oven state, the two dial decoders, and the two sensor
//! readers, plus the three dial-driven integers: remaining `time` in minutes,
//! the requested temperature, and the displayed (quantized) measured
//! temperature. Every 100 ms tick runs a fixed order — poll the probe, tick
//! the buzzer, run the sensor check, poll both dials, quantize the displayed
//! temperature, run the settings tick — and refreshes the status line when
//! anything changed. All hardware sampling happens outside; the tick receives
//! the raw samples as plain values.

use vstd::prelude::*;

use crate::current_sensor::{blended_window, CurrentSensor, CURRENT_LIMIT_UV};
use crate::display::{spec_status_line, Message};
use crate::encoder::{decoded_steps, stepped_value, DialSample, EncoderReader};
use crate::ring::mean_of;
use crate::state::{cooking_on_pid_spec, Oven, OvenControlHardware, OvenReady, MINUTE_TICKS};
use crate::temp_sensor::{ProbeReading, TempSensor, SAMPLE_LIMIT_CENTI};

verus! {

/// Smallest logical value of the temperature dial, in 5-degree units.
pub const TEMP_DIAL_LOW: u16 = 10;

/// Largest logical value of the temperature dial, in 5-degree units.
pub const TEMP_DIAL_HIGH: u16 = 50;

/// Smallest remaining time the time dial can set, in minutes.
pub const TIME_DIAL_LOW: u16 = 0;

/// Largest remaining time the time dial can set, in minutes.
pub const TIME_DIAL_HIGH: u16 = 180;

/// Half-width of the hysteresis band around the requested temperature, in
/// centidegrees.
pub const HYSTERESIS_CENTI: i32 = 500;

/// The displayed measured temperature: while the filtered reading sits within
/// the hysteresis band around the requested temperature, the requested value
/// itself is shown (so the display does not flicker while converging);
/// otherwise the reading is quantized down to the nearest multiple of five
/// degrees, with readings below zero shown as zero.
pub open spec fn spec_display_temp(temp_requested: u16, mean_centi: int) -> int {
    if -HYSTERESIS_CENTI <= temp_requested * 100 - mean_centi <= HYSTERESIS_CENTI {
        temp_requested as int
    } else if mean_centi < 0 {
        0
    } else {
        (mean_centi / 500) * 5
    }
}

/// Quantizes one filtered reading against the requested temperature.
pub fn display_temp(temp_requested: u16, mean_centi: i32) -> (r: u16)
    requires
        -SAMPLE_LIMIT_CENTI <= mean_centi <= SAMPLE_LIMIT_CENTI,
    ensures
        r == spec_display_temp(temp_requested, mean_centi as int),
{
    let req_centi: i32 = (temp_requested as i32) * 100;
    let diff: i32 = req_centi - mean_centi;
    if -HYSTERESIS_CENTI <= diff && diff <= HYSTERESIS_CENTI {
        temp_requested
    } else if mean_centi < 0 {
        0
    } else {
        ((mean_centi / 500) * 5) as u16
    }
}

/// The measured temperature handed to the duty controller: the filtered mean
/// in whole degrees, floored at zero.
pub open spec fn spec_raw_temp(mean_centi: int) -> int {
    if mean_centi < 0 {
        0
    } else {
        mean_centi / 100
    }
}

/// The controller: oven state, dial decoders, sensor readers, and the three
/// dial-driven integers.
pub struct StateManager {
    pub time: u16,
    pub temp_requested: u16,
    pub temp_actual: u16,
    pub temp_actual_raw: u16,
    pub temp_enc: EncoderReader,
    pub time_enc: EncoderReader,
    pub state: Option<Oven>,
    pub temp_sensor: TempSensor,
    pub current_sensor: CurrentSensor,
}

impl StateManager {
    /// The oven value is logically always present; it is only briefly taken
    /// and replaced inside a tick to satisfy by-value transitions, and is
    /// never observed absent from outside.
    pub open spec fn wf(self) -> bool {
        &&& self.state is Some
        &&& self.state->0.wf()
        &&& self.temp_enc.wf()
        &&& self.temp_enc.low_margin == TEMP_DIAL_LOW
        &&& self.temp_enc.high_margin == TEMP_DIAL_HIGH
        &&& self.time_enc.wf()
        &&& self.time_enc.low_margin == TIME_DIAL_LOW
        &&& self.time_enc.high_margin == TIME_DIAL_HIGH
        &&& self.temp_sensor.wf()
        &&& self.current_sensor.wf()
        &&& 5 * TEMP_DIAL_LOW <= self.temp_requested <= 5 * TEMP_DIAL_HIGH
        &&& self.time <= TIME_DIAL_HIGH
    }

    /// The active oven state.
    pub open spec fn oven(self) -> Oven {
        self.state->0
    }

    /// What a debounced cook-button edge does to the manager: the oven state
    /// takes the button, everything else stays.
    pub open spec fn cook_btn_relation(pre: StateManager, post: StateManager) -> bool {
        &&& match pre.oven() {
            Oven::OvenReady(s) => post.oven() == Oven::OvenReady(s),
            Oven::OvenPreRun(s) => crate::state::cooking_started(post.oven(), s.hw),
            Oven::Cooking(c) => crate::state::ready_after_shutdown(post.oven(), c.hw, c.hw.buzzer),
            Oven::LidOpen(s) => post.oven() == Oven::LidOpen(s),
            Oven::OvenHalt(s) => post.oven() == Oven::OvenHalt(s),
        }
        &&& post.time == pre.time
        &&& post.temp_requested == pre.temp_requested
        &&& post.temp_actual == pre.temp_actual
        &&& post.temp_actual_raw == pre.temp_actual_raw
        &&& post.temp_sensor == pre.temp_sensor
        &&& post.current_sensor == pre.current_sensor
        &&& post.temp_enc == pre.temp_enc
        &&& post.time_enc == pre.time_enc
    }

    /// What one duty computation does to the manager: only a running cook
    /// recomputes its window, everything else stays.
    pub open spec fn pid_relation(pre: StateManager, post: StateManager, control: i32) -> bool {
        &&& match pre.oven() {
            Oven::Cooking(c) => post.oven() is Cooking
                && cooking_on_pid_spec(c, control, post.oven().cooking_of()),
            _ => post.oven() == pre.oven(),
        }
        &&& post.time == pre.time
        &&& post.temp_requested == pre.temp_requested
        &&& post.temp_actual == pre.temp_actual
        &&& post.temp_actual_raw == pre.temp_actual_raw
        &&& post.temp_sensor == pre.temp_sensor
        &&& post.current_sensor == pre.current_sensor
        &&& post.temp_enc == pre.temp_enc
        &&& post.time_enc == pre.time_enc
    }

    /// What one 100 ms orchestration tick does to the manager: the probe poll
    /// lands exactly once; the dials move their values within their stops;
    /// displayed and recorded temperature follow the fresh window with
    /// hysteresis; a halted oven keeps its fault, its screen and its
    /// de-energized outputs, with the remaining time forced to zero; a fault
    /// seen by the fresh readers halts this very tick; without a fault the
    /// buzzer ticks and the state table runs its settings step; and the
    /// status line is redrawn exactly when something changed, never once
    /// halted.
    pub open spec fn tick_relation(
        pre: StateManager,
        post: StateManager,
        lid: bool,
        probe: Option<ProbeReading>,
        temp_dial: DialSample,
        time_dial: DialSample,
    ) -> bool {
        &&& TempSensor::polled(pre.temp_sensor, probe, post.temp_sensor)
        &&& post.current_sensor == pre.current_sensor
        &&& ({
            let steps = decoded_steps(temp_dial.direction, pre.temp_enc.prev_value, temp_dial.value);
            if steps == 0 {
                &&& post.temp_requested == pre.temp_requested
                &&& post.temp_enc == pre.temp_enc
            } else {
                &&& post.temp_requested == 5 * stepped_value(
                    temp_dial.direction, (pre.temp_requested / 5) as u16, steps,
                    TEMP_DIAL_LOW, TEMP_DIAL_HIGH)
                &&& post.temp_enc.prev_value == temp_dial.value
            }
        })
        &&& ({
            let steps = decoded_steps(time_dial.direction, pre.time_enc.prev_value, time_dial.value);
            if steps == 0 {
                post.time_enc == pre.time_enc
            } else {
                post.time_enc.prev_value == time_dial.value
            }
        })
        &&& ({
            let w = post.temp_sensor.sensor_window();
            if w.len() > 0 {
                &&& post.temp_actual_raw == spec_raw_temp(mean_of(w))
                &&& post.temp_actual == spec_display_temp(post.temp_requested, mean_of(w))
            } else {
                &&& post.temp_actual_raw == pre.temp_actual_raw
                &&& post.temp_actual == pre.temp_actual
            }
        })
        &&& (pre.oven() is OvenHalt ==> {
            &&& post.oven() is OvenHalt
            &&& post.oven().halt_reason_of() == pre.oven().halt_reason_of()
            &&& crate::display::same_display(post.oven().hw().display, pre.oven().hw().display)
            &&& crate::state::outputs_off(post.oven().hw())
            &&& post.time == 0
        })
        // A sensor fault seen by the freshly polled readers is never dropped:
        // the oven halts this very tick with the winning fault, everything
        // de-energized and the remaining time zeroed. Without a fault, an
        // open lid puts the oven in the lid-open state, and a closed lid
        // leaves the settings step to run as the state table says: the ready
        // state arms once a time is dialed in, the armed state disarms at
        // zero, a reopened-then-closed lid recovers to ready, and a running
        // cook applies its heater duty, counts its minute down, chimes into
        // the last minute and finishes to ready with everything off and the
        // done chime sounding. The buzzer countdown loses one tick first.
        &&& (!(pre.oven() is OvenHalt) ==> {
            let hw1 = crate::state::hw_after_buzzer_tick(pre.oven().hw());
            let steps_time = decoded_steps(
                time_dial.direction, pre.time_enc.prev_value, time_dial.value);
            let t1: int = if steps_time == 0 {
                pre.time as int
            } else {
                stepped_value(time_dial.direction, pre.time, steps_time,
                    TIME_DIAL_LOW, TIME_DIAL_HIGH)
            };
            let fault = if pre.oven() is Cooking {
                crate::state::first_cooking_fault(post.temp_sensor, pre.current_sensor)
            } else {
                crate::state::first_standby_fault(post.temp_sensor, pre.current_sensor)
            };
            match fault {
                Some(reason) => {
                    &&& post.oven() is OvenHalt
                    &&& post.oven().halt_reason_of() == reason
                    &&& crate::state::outputs_off(post.oven().hw())
                    &&& post.time == 0
                },
                None => if !lid {
                    post.oven() is LidOpen
                } else {
                    match pre.oven() {
                        Oven::OvenReady(_) => {
                            &&& post.time == t1
                            &&& post.oven().hw().buzzer == hw1.buzzer
                            &&& if t1 == 0 {
                                post.oven() is OvenReady
                            } else {
                                post.oven() is OvenPreRun
                                    && post.oven().hw().display.top == Message::PressRun
                            }
                        },
                        Oven::OvenPreRun(_) => {
                            &&& post.time == t1
                            &&& post.oven().hw().buzzer == hw1.buzzer
                            &&& if t1 == 0 {
                                post.oven() is OvenReady
                                    && post.oven().hw().display.top == Message::Ready
                            } else {
                                post.oven() is OvenPreRun
                            }
                        },
                        // A closed lid recovers to ready, and the same tick's
                        // settings step may then arm the oven again.
                        Oven::LidOpen(_) => {
                            &&& post.time == t1
                            &&& post.oven().hw().buzzer == hw1.buzzer
                            &&& if t1 == 0 {
                                post.oven() is OvenReady
                                    && post.oven().hw().display.top == Message::Ready
                            } else {
                                post.oven() is OvenPreRun
                                    && post.oven().hw().display.top == Message::PressRun
                            }
                        },
                        Oven::Cooking(c) => {
                            let minute_rolled = c.minute_delay == 1;
                            let next_time: int = if minute_rolled {
                                if t1 == 0 { 0 } else { t1 - 1 }
                            } else {
                                t1
                            };
                            let buzzer1 = if minute_rolled && next_time == 1 {
                                hw1.buzzer.spec_beep(crate::buzzer::PRE_BEEP_PERIODS)
                            } else {
                                hw1.buzzer
                            };
                            let heater_on = c.heater_percents > 0;
                            &&& post.time == next_time
                            &&& if next_time == 0 {
                                &&& post.oven() is OvenReady
                                &&& post.oven().hw().display.top == Message::Ready
                                &&& post.oven().hw().buzzer
                                    == buzzer1.spec_beep(crate::buzzer::DONE_BEEP_PERIODS)
                                &&& crate::state::outputs_off(post.oven().hw())
                            } else {
                                &&& post.oven() is Cooking
                                &&& post.oven().hw().display.top == pre.oven().hw().display.top
                                &&& post.oven().hw().buzzer == buzzer1
                                &&& post.oven().hw().heater == heater_on
                                &&& post.oven().hw().motor == c.hw.motor
                                &&& post.oven().hw().cook_ld == c.hw.cook_ld
                                &&& post.oven().cooking_of().heater_percents
                                    == if heater_on { c.heater_percents - 1 } else { 0int }
                                &&& post.oven().cooking_of().minute_delay
                                    == if minute_rolled { MINUTE_TICKS as int } else { c.minute_delay - 1 }
                                &&& post.oven().cooking_of().temp_actual == post.temp_actual_raw
                                &&& post.oven().cooking_of().setpoint == post.temp_requested
                            }
                        },
                        Oven::OvenHalt(_) => true,
                    }
                },
            }
        })
        // The status line is redrawn exactly when something changed this
        // tick — a dial moved, the displayed temperature changed, or the
        // settings step changed the remaining time — and never once halted:
        // a freshly entered fault screen keeps its cleared line for good.
        &&& ({
            let steps_temp = decoded_steps(
                temp_dial.direction, pre.temp_enc.prev_value, temp_dial.value);
            let steps_time = decoded_steps(
                time_dial.direction, pre.time_enc.prev_value, time_dial.value);
            let t1: int = if steps_time == 0 {
                pre.time as int
            } else {
                stepped_value(time_dial.direction, pre.time, steps_time,
                    TIME_DIAL_LOW, TIME_DIAL_HIGH)
            };
            let redraw = steps_temp != 0 || steps_time != 0
                || post.temp_actual != pre.temp_actual || post.time != t1;
            if post.oven() is OvenHalt {
                !(pre.oven() is OvenHalt)
                    ==> post.oven().hw().display.bottom@ == Seq::<u8>::empty()
            } else {
                post.oven().hw().display.bottom@ == if redraw {
                    spec_status_line(post.time, post.temp_actual, post.temp_requested)
                } else {
                    pre.oven().hw().display.bottom@
                }
            }
        })
    }

    /// A manager starting in the ready state with no time dialed in, the
    /// requested temperature at the dial's lower stop, and the status line
    /// freshly drawn.
    pub fn new(
        hw: OvenControlHardware,
        current_sensor: CurrentSensor,
        temp_enc: EncoderReader,
        time_enc: EncoderReader,
        temp_sensor: TempSensor,
    ) -> (r: StateManager)
        requires
            !hw.heater,
            !hw.motor,
            temp_enc.wf(),
            temp_enc.low_margin == TEMP_DIAL_LOW,
            temp_enc.high_margin == TEMP_DIAL_HIGH,
            time_enc.wf(),
            time_enc.low_margin == TIME_DIAL_LOW,
            time_enc.high_margin == TIME_DIAL_HIGH,
            temp_sensor.wf(),
            current_sensor.wf(),
        ensures
            r.wf(),
            r.time == 0,
            r.temp_requested == 50,
            r.temp_actual == 0,
            r.temp_actual_raw == 0,
            r.oven() is OvenReady,
            r.oven().hw().display.top == Message::Ready,
            r.oven().hw().display.bottom@ == spec_status_line(0, 0, 50),
            r.oven().hw().buzzer == hw.buzzer,
            r.oven().hw().cook_ld == hw.cook_ld,
            r.oven().hw().heater == hw.heater,
            r.oven().hw().motor == hw.motor,
    {
        let mut initial = Oven::OvenReady(OvenReady::new(hw));
        initial.refresh_status(0, 0, 50);
        StateManager {
            time: 0,
            temp_requested: 50,
            temp_actual: 0,
            temp_actual_raw: 0,
            temp_enc,
            time_enc,
            state: Some(initial),
            temp_sensor,
            current_sensor,
        }
    }

    /// Feeds one 10 ms motor-current sample into the current reader; nothing
    /// else moves.
    pub fn adc_poll(&mut self, volts: i32)
        requires
            old(self).wf(),
            0 <= volts <= CURRENT_LIMIT_UV,
        ensures
            final(self).wf(),
            final(self).current_sensor.window()
                == blended_window(old(self).current_sensor.window(), volts),
            final(self).time == old(self).time,
            final(self).temp_requested == old(self).temp_requested,
            final(self).temp_actual == old(self).temp_actual,
            final(self).temp_actual_raw == old(self).temp_actual_raw,
            final(self).state == old(self).state,
            final(self).temp_sensor == old(self).temp_sensor,
            final(self).temp_enc == old(self).temp_enc,
            final(self).time_enc == old(self).time_enc,
    {
        self.current_sensor.add_value(volts);
    }

    /// Runs one duty computation from the controller's rounded output; only a
    /// running cook recomputes its window.
    pub fn pid_poll(&mut self, control: i32)
        requires
            old(self).wf(),
            control <= u8::MAX,
        ensures
            final(self).wf(),
            StateManager::pid_relation(*old(self), *final(self), control),
    {
        let mut oven = self.state.take().unwrap();
        oven.on_pid(control);
        self.state = Some(oven);
    }

    /// Dispatches the debounced cook-button edge to the oven state.
    pub fn on_cook_btn(&mut self)
        requires
            old(self).wf(),
        ensures
            final(self).wf(),
            StateManager::cook_btn_relation(*old(self), *final(self)),
    {
        let oven = self.state.take().unwrap();
        self.state = Some(oven.on_cook_btn());
    }

    /// One 100 ms orchestration tick, fed the raw samples read outside the
    /// library: the instantaneous lid level, the probe transaction outcome,
    /// and the two dial counters. Runs the fixed order — probe poll, buzzer
    /// tick, sensor check, dial polls, display-temperature quantization,
    /// settings tick — and refreshes the status line when anything changed.
    /// A halted oven keeps its fault screen: the refresh is skipped, and only
    /// the fixed diagnostic content stays up.
    #[verifier::rlimit(100)]
    #[verifier::spinoff_prover]
    pub fn enc_poll(
        &mut self,
        lid: bool,
        probe: Option<ProbeReading>,
        temp_dial: DialSample,
        time_dial: DialSample,
    )
        requires
            old(self).wf(),
            probe is Some ==> probe->0.wf(),
            temp_dial.wf(),
            time_dial.wf(),
        ensures
            final(self).wf(),
            StateManager::tick_relation(*old(self), *final(self), lid, probe, temp_dial, time_dial),
    {
        // 1.–3. Probe poll, buzzer tick, sensor check.
        self.step_sensors(lid, probe);
        // 4. Both dials are polled; any movement re-dials the corresponding
        // value.
        let dials_moved = self.step_dials(temp_dial, time_dial);
        // 5. The displayed temperature follows the filtered reading, with
        // hysteresis around the requested temperature.
        let temp_moved = self.step_temp();
        // 6. The settings tick runs against the post-check state; a changed
        // remaining time is adopted.
        let time_moved = self.step_settings();
        // 7. Anything changed: redraw the status line — except on the fault
        // screen, which stays as the diagnostic left it.
        if dials_moved || temp_moved || time_moved {
            self.step_refresh();
        }
    }

    /// Steps 1–3 of the tick: the probe poll, the buzzer tick, and the sensor
    /// check, which replaces the state by value.
    fn step_sensors(&mut self, lid: bool, probe: Option<ProbeReading>)
        requires
            old(self).wf(),
            probe is Some ==> probe->0.wf(),
        ensures
            final(self).wf(),
            TempSensor::polled(old(self).temp_sensor, probe, final(self).temp_sensor),
            final(self).current_sensor == old(self).current_sensor,
            final(self).temp_enc == old(self).temp_enc,
            final(self).time_enc == old(self).time_enc,
            final(self).time == old(self).time,
            final(self).temp_requested == old(self).temp_requested,
            final(self).temp_actual == old(self).temp_actual,
            final(self).temp_actual_raw == old(self).temp_actual_raw,
            old(self).oven() is OvenHalt ==> final(self).oven()
                == old(self).oven().with_hw(
                    crate::state::hw_after_buzzer_tick(old(self).oven().hw())),
            !(old(self).oven() is OvenHalt) ==> ({
                let hw1 = crate::state::hw_after_buzzer_tick(old(self).oven().hw());
                let fault = if old(self).oven() is Cooking {
                    crate::state::first_cooking_fault(final(self).temp_sensor, old(self).current_sensor)
                } else {
                    crate::state::first_standby_fault(final(self).temp_sensor, old(self).current_sensor)
                };
                match fault {
                    Some(reason) => {
                        &&& final(self).oven() is OvenHalt
                        &&& final(self).oven().halt_reason_of() == reason
                        &&& crate::state::outputs_off(final(self).oven().hw())
                    },
                    None => match old(self).oven() {
                        Oven::LidOpen(_) => if lid {
                            final(self).oven() is OvenReady && crate::state::shows_message(
                                final(self).oven().hw(), hw1, Message::Ready)
                        } else {
                            final(self).oven() == old(self).oven().with_hw(hw1)
                        },
                        _ => if !lid {
                            &&& final(self).oven() is LidOpen
                            &&& final(self).oven().hw().display.top == Message::CloseLid
                            &&& final(self).oven().hw().buzzer == hw1.buzzer
                        } else {
                            final(self).oven() == old(self).oven().with_hw(hw1)
                        },
                    },
                }
            }),
            !(final(self).oven() is OvenHalt) ==> final(self).oven().hw().display.bottom@
                == old(self).oven().hw().display.bottom@,
            final(self).oven() is OvenHalt && !(old(self).oven() is OvenHalt)
                ==> final(self).oven().hw().display.bottom@ == Seq::<u8>::empty(),
    {
        self.temp_sensor.poll_sensor(probe);
        let mut oven = self.state.take().unwrap();
        oven.on_buzzer_timer();
        let oven = oven.on_sensors(lid, &self.temp_sensor, &self.current_sensor);
        self.state = Some(oven);
    }

    /// Step 4 of the tick: both dial polls.
    fn step_dials(&mut self, temp_dial: DialSample, time_dial: DialSample) -> (moved: bool)
        requires
            old(self).wf(),
            temp_dial.wf(),
            time_dial.wf(),
        ensures
            final(self).wf(),
            final(self).state == old(self).state,
            final(self).temp_sensor == old(self).temp_sensor,
            final(self).current_sensor == old(self).current_sensor,
            final(self).temp_actual == old(self).temp_actual,
            final(self).temp_actual_raw == old(self).temp_actual_raw,
            ({
                let steps = decoded_steps(
                    temp_dial.direction, old(self).temp_enc.prev_value, temp_dial.value);
                if steps == 0 {
                    &&& final(self).temp_requested == old(self).temp_requested
                    &&& final(self).temp_enc == old(self).temp_enc
                } else {
                    &&& final(self).temp_requested == 5 * stepped_value(
                        temp_dial.direction, (old(self).temp_requested / 5) as u16, steps,
                        TEMP_DIAL_LOW, TEMP_DIAL_HIGH)
                    &&& final(self).temp_enc.prev_value == temp_dial.value
                }
            }),
            ({
                let steps = decoded_steps(
                    time_dial.direction, old(self).time_enc.prev_value, time_dial.value);
                if steps == 0 {
                    &&& final(self).time == old(self).time
                    &&& final(self).time_enc == old(self).time_enc
                } else {
                    &&& final(self).time == stepped_value(
                        time_dial.direction, old(self).time, steps, TIME_DIAL_LOW, TIME_DIAL_HIGH)
                    &&& final(self).time_enc.prev_value == time_dial.value
                }
            }),
            moved == (decoded_steps(
                    temp_dial.direction, old(self).temp_enc.prev_value, temp_dial.value) != 0
                || decoded_steps(
                    time_dial.direction, old(self).time_enc.prev_value, time_dial.value) != 0),
    {
        let mut moved = false;
        match self.temp_enc.read(temp_dial.direction, temp_dial.value, self.temp_requested / 5) {
            Some(v) => {
                self.temp_requested = v * 5;
                moved = true;
            },
            None => {},
        }
        match self.time_enc.read(time_dial.direction, time_dial.value, self.time) {
            Some(v) => {
                self.time = v;
                moved = true;
            },
            None => {},
        }
        moved
    }

    /// Step 5 of the tick: the displayed and recorded temperatures follow the
    /// filtered reading.
    fn step_temp(&mut self) -> (moved: bool)
        requires
            old(self).wf(),
        ensures
            final(self).wf(),
            final(self).state == old(self).state,
            final(self).temp_sensor == old(self).temp_sensor,
            final(self).current_sensor == old(self).current_sensor,
            final(self).temp_enc == old(self).temp_enc,
            final(self).time_enc == old(self).time_enc,
            final(self).time == old(self).time,
            final(self).temp_requested == old(self).temp_requested,
            ({
                let w = old(self).temp_sensor.sensor_window();
                if w.len() > 0 {
                    &&& final(self).temp_actual_raw == spec_raw_temp(mean_of(w))
                    &&& final(self).temp_actual
                        == spec_display_temp(old(self).temp_requested, mean_of(w))
                } else {
                    &&& final(self).temp_actual_raw == old(self).temp_actual_raw
                    &&& final(self).temp_actual == old(self).temp_actual
                }
            }),
            moved == (final(self).temp_actual != old(self).temp_actual),
    {
        let mut moved = false;
        match self.temp_sensor.get_sensor() {
            Some(measured) => {
                self.temp_actual_raw = if measured < 0 { 0 } else { (measured / 100) as u16 };
                let q_value = display_temp(self.temp_requested, measured);
                if self.temp_actual != q_value {
                    self.temp_actual = q_value;
                    moved = true;
                }
            },
            None => {},
        }
        moved
    }

    /// Step 6 of the tick: the settings tick against the post-check state; a
    /// changed remaining time is adopted.
    fn step_settings(&mut self) -> (moved: bool)
        requires
            old(self).wf(),
        ensures
            final(self).wf(),
            final(self).temp_sensor == old(self).temp_sensor,
            final(self).current_sensor == old(self).current_sensor,
            final(self).temp_enc == old(self).temp_enc,
            final(self).time_enc == old(self).time_enc,
            final(self).temp_requested == old(self).temp_requested,
            final(self).temp_actual == old(self).temp_actual,
            final(self).temp_actual_raw == old(self).temp_actual_raw,
            match old(self).oven() {
                Oven::OvenReady(s) => {
                    &&& final(self).time == old(self).time
                    &&& if old(self).time == 0 {
                        final(self).oven() == old(self).oven()
                    } else {
                        final(self).oven() is OvenPreRun && crate::state::shows_message(
                            final(self).oven().hw(), s.hw, Message::PressRun)
                    }
                },
                Oven::OvenPreRun(s) => {
                    &&& final(self).time == old(self).time
                    &&& if old(self).time == 0 {
                        final(self).oven() is OvenReady && crate::state::shows_message(
                            final(self).oven().hw(), s.hw, Message::Ready)
                    } else {
                        final(self).oven() == old(self).oven()
                    }
                },
                Oven::Cooking(c) => crate::state::cooking_on_settings_spec(
                    c, old(self).temp_actual_raw, old(self).temp_requested, old(self).time,
                    final(self).oven(), final(self).time),
                Oven::LidOpen(_) => final(self).oven() == old(self).oven()
                    && final(self).time == old(self).time,
                Oven::OvenHalt(_) => final(self).oven() == old(self).oven()
                    && final(self).time == 0,
            },
            final(self).oven().hw().display.bottom@
                == old(self).oven().hw().display.bottom@,
            moved == (final(self).time != old(self).time),
    {
        let mut moved = false;
        let oven = self.state.take().unwrap();
        let (oven, next_time) = oven.on_settings(self.temp_actual_raw, self.temp_requested, self.time);
        if next_time != self.time {
            self.time = next_time;
            moved = true;
        }
        self.state = Some(oven);
        moved
    }

    /// Step 7 of the tick: redraw the status line, except on the fault
    /// screen, which keeps its diagnostic content.
    fn step_refresh(&mut self)
        requires
            old(self).wf(),
        ensures
            final(self).wf(),
            final(self).temp_sensor == old(self).temp_sensor,
            final(self).current_sensor == old(self).current_sensor,
            final(self).temp_enc == old(self).temp_enc,
            final(self).time_enc == old(self).time_enc,
            final(self).time == old(self).time,
            final(self).temp_requested == old(self).temp_requested,
            final(self).temp_actual == old(self).temp_actual,
            final(self).temp_actual_raw == old(self).temp_actual_raw,
            old(self).oven() is OvenHalt ==> final(self).oven() == old(self).oven(),
            (final(self).oven() is OvenReady) == (old(self).oven() is OvenReady),
            (final(self).oven() is OvenPreRun) == (old(self).oven() is OvenPreRun),
            (final(self).oven() is Cooking) == (old(self).oven() is Cooking),
            (final(self).oven() is LidOpen) == (old(self).oven() is LidOpen),
            (final(self).oven() is OvenHalt) == (old(self).oven() is OvenHalt),
            old(self).oven() is Cooking ==> {
                &&& final(self).oven().cooking_of().heater_percents
                    == old(self).oven().cooking_of().heater_percents
                &&& final(self).oven().cooking_of().minute_delay
                    == old(self).oven().cooking_of().minute_delay
                &&& final(self).oven().cooking_of().temp_actual
                    == old(self).oven().cooking_of().temp_actual
                &&& final(self).oven().cooking_of().setpoint
                    == old(self).oven().cooking_of().setpoint
            },
            !(old(self).oven() is OvenHalt) ==> {
                &&& final(self).oven().with_hw(old(self).oven().hw()) == old(self).oven()
                &&& final(self).oven().hw().display.top == old(self).oven().hw().display.top
                &&& final(self).oven().hw().display.bottom@ == spec_status_line(
                    old(self).time, old(self).temp_actual, old(self).temp_requested)
                &&& final(self).oven().hw().buzzer == old(self).oven().hw().buzzer
                &&& final(self).oven().hw().cook_ld == old(self).oven().hw().cook_ld
                &&& final(self).oven().hw().heater == old(self).oven().hw().heater
                &&& final(self).oven().hw().motor == old(self).oven().hw().motor
            },
    {
        let mut oven = self.state.take().unwrap();
        if !oven.is_halt() {
            oven.refresh_status(self.time, self.temp_actual, self.temp_requested);
        }
        self.state = Some(oven);
    }
}

/// Law: halt is absorbing under the orchestration tick. Once the oven has
/// halted, every further tick keeps the same fault and the de-energized
/// outputs, and pins the remaining time at zero.
pub proof fn lemma_halt_absorbing_tick(
    pre: StateManager,
    post: StateManager,
    lid: bool,
    probe: Option<ProbeReading>,
    temp_dial: DialSample,
    time_dial: DialSample,
)
    requires
        pre.oven() is OvenHalt,
        StateManager::tick_relation(pre, post, lid, probe, temp_dial, time_dial),
    ensures
        post.oven() is OvenHalt,
        post.oven().halt_reason_of() == pre.oven().halt_reason_of(),
        crate::state::outputs_off(post.oven().hw()),
        post.time == 0,
{
}

/// Law: halt is absorbing under the cook button.
pub proof fn lemma_halt_absorbing_button(pre: StateManager, post: StateManager)
    requires
        pre.oven() is OvenHalt,
        StateManager::cook_btn_relation(pre, post),
    ensures
        post.oven() == pre.oven(),
        post.time == pre.time,
{
}

/// Law: halt is absorbing under the duty computation.
pub proof fn lemma_halt_absorbing_duty(pre: StateManager, post: StateManager, control: i32)
    requires
        pre.oven() is OvenHalt,
        StateManager::pid_relation(pre, post, control),
    ensures
        post.oven() == pre.oven(),
        post.time == pre.time,
{
}

} // verus!
