//! Beep scheduling for the indicator buzzer.
//!
//! The buzzer sounds while a beep countdown is running; the physical pin is
//! driven outside the library from `is_sounding`. A beep request while a beep
//! is already active is ignored — beeps never queue or overlap. The countdown
//! ticks at the 100 ms orchestration rate.

use vstd::prelude::*;

verus! {

/// Length of the short acknowledgement beep on the run button, in ticks.
pub const RUN_BEEP_PERIODS: u32 = 3;

/// Length of the "almost done" chime at the last minute, in ticks.
pub const PRE_BEEP_PERIODS: u32 = 10;

/// Length of the "cooking done" chime, in ticks.
pub const DONE_BEEP_PERIODS: u32 = 25;

/// Countdown state of the buzzer: the number of ticks the current beep still
/// has to sound. Zero means silence.
pub struct BuzzerManager {
    pub periods: u32,
}

impl BuzzerManager {
    /// What one 100 ms tick leaves behind: an active countdown loses one
    /// period.
    pub open spec fn spec_tick(self) -> BuzzerManager {
        if self.periods > 0 {
            BuzzerManager { periods: (self.periods - 1) as u32 }
        } else {
            self
        }
    }

    /// What a beep request of the given length leaves behind: it starts the
    /// countdown when the buzzer is silent and is ignored otherwise.
    pub open spec fn spec_beep(self, duration: u32) -> BuzzerManager {
        if self.periods == 0 {
            BuzzerManager { periods: duration }
        } else {
            self
        }
    }

    /// A silent buzzer.
    pub fn new() -> (r: BuzzerManager)
        ensures
            r.periods == 0,
    {
        BuzzerManager { periods: 0 }
    }

    /// The buzzer is currently sounding.
    pub fn is_sounding(&self) -> (r: bool)
        ensures
            r == (self.periods > 0),
    {
        self.periods > 0
    }

    /// One 100 ms tick: an active countdown loses one period and the buzzer
    /// falls silent when it reaches zero.
    pub fn on_timer(&mut self)
        ensures
            *final(self) == old(self).spec_tick(),
    {
        if self.periods > 0 {
            self.periods = self.periods - 1;
        }
    }

    /// Starts a beep of the given length unless a beep is already active.
    fn beep(&mut self, duration: u32)
        ensures
            *final(self) == old(self).spec_beep(duration),
    {
        if self.periods == 0 {
            self.periods = duration;
        }
    }

    /// Short beep acknowledging the run button.
    pub fn run_beep(&mut self)
        ensures
            *final(self) == old(self).spec_beep(RUN_BEEP_PERIODS),
    {
        self.beep(RUN_BEEP_PERIODS)
    }

    /// Chime for the last minute of the cook.
    pub fn pre_beep(&mut self)
        ensures
            *final(self) == old(self).spec_beep(PRE_BEEP_PERIODS),
    {
        self.beep(PRE_BEEP_PERIODS)
    }

    /// Chime for the end of the cook.
    pub fn done_beep(&mut self)
        ensures
            *final(self) == old(self).spec_beep(DONE_BEEP_PERIODS),
    {
        self.beep(DONE_BEEP_PERIODS)
    }
}

} // verus!
