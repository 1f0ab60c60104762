//! Temperature sensor fusion.
//!
//! The probe transaction itself is physical I/O and happens outside the
//! library; each poll hands in either one reading or a failure. The reader
//! keeps short windows of recent probe and cold-junction readings, exposes
//! their filtered means, and raises its fault predicates when the probe has
//! been unresponsive for too long or the cold junction reports an ambient
//! temperature too hot for the power electronics.
//!
//! Temperatures are carried as `i32` centidegrees Celsius, the fixed-point
//! unit of the library.

use vstd::prelude::*;

use crate::ring::{
    mean_of, push_evict, ring, ring_len, ring_mean, ring_new, ring_pop_front, ring_push_back,
    ring_to_vec, sum_of, RING_VALUE_LIMIT,
};

verus! {

/// Calibration offset added to every probe reading, in centidegrees.
pub const TEMP_OFFSET_CENTI: i32 = 500;

/// Largest magnitude the probe transaction can hand in, in centidegrees: the
/// converter's signed 14-bit quarter-degree range, rounded up.
pub const PROBE_LIMIT_CENTI: i32 = 210_000;

/// Largest magnitude a stored sample can have: a probe reading plus the
/// calibration offset, rounded up.
pub const SAMPLE_LIMIT_CENTI: i32 = 220_000;

/// Consecutive failed polls beyond which the probe counts as faulted:
/// two seconds of unresponsive sensor at the 100 ms poll rate.
pub const FAILURE_THRESHOLD: u8 = 20;

/// Mean cold-junction temperature above which the ambient is too hot for the
/// power electronics, in centidegrees.
pub const OVERHEAT_LIMIT_CENTI: i32 = 6_000;

/// One successful probe transaction: the thermocouple and the chip-internal
/// (cold junction) temperature, both in centidegrees Celsius.
pub struct ProbeReading {
    pub thermocouple: i32,
    pub internal: i32,
}

impl ProbeReading {
    /// Both fields lie within the converter's range.
    pub open spec fn wf(self) -> bool {
        &&& -PROBE_LIMIT_CENTI <= self.thermocouple <= PROBE_LIMIT_CENTI
        &&& -PROBE_LIMIT_CENTI <= self.internal <= PROBE_LIMIT_CENTI
    }
}

/// Filtered view of the temperature probe: windows of the ten most recent
/// probe and cold-junction readings, and a consecutive-failure counter.
pub struct TempSensor {
    pub sensor_values: heapless::Deque<i32, 10>,
    pub internal_values: heapless::Deque<i32, 10>,
    pub error: u8,
}

impl TempSensor {
    /// Both windows hold at most ten samples, each within the stored-sample
    /// bound.
    pub open spec fn wf(self) -> bool {
        &&& ring(self.sensor_values).len() <= 10
        &&& ring(self.internal_values).len() <= 10
        &&& forall|i: int| 0 <= i < ring(self.sensor_values).len()
            ==> -SAMPLE_LIMIT_CENTI <= #[trigger] ring(self.sensor_values)[i] <= SAMPLE_LIMIT_CENTI
        &&& forall|i: int| 0 <= i < ring(self.internal_values).len()
            ==> -SAMPLE_LIMIT_CENTI <= #[trigger] ring(self.internal_values)[i] <= SAMPLE_LIMIT_CENTI
    }

    /// The probe window, oldest first.
    pub open spec fn sensor_window(self) -> Seq<i32> {
        ring(self.sensor_values)
    }

    /// The cold-junction window, oldest first.
    pub open spec fn internal_window(self) -> Seq<i32> {
        ring(self.internal_values)
    }

    /// The probe has missed more consecutive polls than the threshold allows.
    pub open spec fn spec_is_error(self) -> bool {
        self.error > FAILURE_THRESHOLD
    }

    /// The mean cold-junction temperature exceeds the ambient ceiling; stated
    /// exactly, over the window's sum, so no division rounding is involved.
    pub open spec fn spec_is_overheating(self) -> bool {
        &&& self.internal_window().len() > 0
        &&& sum_of(self.internal_window())
            > OVERHEAT_LIMIT_CENTI * self.internal_window().len()
    }

    /// How one poll outcome changes the reader: a successful reading enters
    /// both windows (the probe value with its calibration offset) and clears
    /// the failure counter; a failure only counts, saturating, and leaves the
    /// windows untouched.
    pub open spec fn polled(pre: TempSensor, reading: Option<ProbeReading>, post: TempSensor) -> bool {
        match reading {
            Some(v) => {
                &&& post.sensor_window()
                    == push_evict(pre.sensor_window(), (v.thermocouple + TEMP_OFFSET_CENTI) as i32)
                &&& post.internal_window() == push_evict(pre.internal_window(), v.internal)
                &&& post.error == 0
            },
            None => {
                &&& post.sensor_window() == pre.sensor_window()
                &&& post.internal_window() == pre.internal_window()
                &&& post.error == if pre.error < u8::MAX { pre.error + 1 } else { u8::MAX as int }
            },
        }
    }

    /// A reader with empty windows and a clear failure counter.
    pub fn new() -> (r: TempSensor)
        ensures
            r.wf(),
            r.sensor_window() == Seq::<i32>::empty(),
            r.internal_window() == Seq::<i32>::empty(),
            r.error == 0,
    {
        TempSensor {
            sensor_values: ring_new(),
            internal_values: ring_new(),
            error: 0,
        }
    }

    /// Feeds in the outcome of one probe transaction. A successful reading
    /// enters both windows (the probe value with its calibration offset),
    /// evicting the oldest sample of a full window, and clears the failure
    /// counter; a failed transaction only counts the failure and leaves the
    /// buffered values untouched, so a stale reading keeps being served
    /// rather than faulting at the first miss.
    pub fn poll_sensor(&mut self, reading: Option<ProbeReading>)
        requires
            old(self).wf(),
            reading is Some ==> reading->0.wf(),
        ensures
            final(self).wf(),
            TempSensor::polled(*old(self), reading, *final(self)),
    {
        match reading {
            Some(v) => {
                if ring_len(&self.sensor_values) >= 10 {
                    ring_pop_front(&mut self.sensor_values);
                }
                let _ = ring_push_back(&mut self.sensor_values, v.thermocouple + TEMP_OFFSET_CENTI);
                if ring_len(&self.internal_values) >= 10 {
                    ring_pop_front(&mut self.internal_values);
                }
                let _ = ring_push_back(&mut self.internal_values, v.internal);
                self.error = 0;
            },
            None => {
                // The counter saturates: anything beyond the threshold means
                // fault, so the cap loses nothing.
                if self.error < u8::MAX {
                    self.error = self.error + 1;
                }
            },
        }
    }

    /// The mean of the buffered probe readings, or nothing while the window
    /// is empty.
    pub fn get_sensor(&self) -> (r: Option<i32>)
        requires
            self.wf(),
        ensures
            self.sensor_window().len() == 0 <==> r is None,
            r is Some ==> r->0 == mean_of(self.sensor_window())
                && -SAMPLE_LIMIT_CENTI <= r->0 <= SAMPLE_LIMIT_CENTI,
    {
        Self::window_mean(&self.sensor_values)
    }

    /// The mean of the buffered cold-junction readings, or nothing while the
    /// window is empty.
    pub fn get_internal_temperature(&self) -> (r: Option<i32>)
        requires
            self.wf(),
        ensures
            self.internal_window().len() == 0 <==> r is None,
            r is Some ==> r->0 == mean_of(self.internal_window())
                && -SAMPLE_LIMIT_CENTI <= r->0 <= SAMPLE_LIMIT_CENTI,
    {
        Self::window_mean(&self.internal_values)
    }

    /// The mean of one window under the stored-sample bound.
    fn window_mean(values: &heapless::Deque<i32, 10>) -> (r: Option<i32>)
        requires
            ring(*values).len() <= 10,
            forall|i: int| 0 <= i < ring(*values).len()
                ==> -SAMPLE_LIMIT_CENTI <= #[trigger] ring(*values)[i] <= SAMPLE_LIMIT_CENTI,
        ensures
            ring(*values).len() == 0 <==> r is None,
            r is Some ==> r->0 == mean_of(ring(*values))
                && -SAMPLE_LIMIT_CENTI <= r->0 <= SAMPLE_LIMIT_CENTI,
    {
        if ring_len(values) == 0 {
            None
        } else {
            proof {
                crate::ring::lemma_mean_of_bound(ring(*values), SAMPLE_LIMIT_CENTI as int);
            }
            Some(ring_mean(values))
        }
    }

    /// The probe has been unresponsive for longer than the two-second budget.
    pub fn is_error(&self) -> (r: bool)
        ensures
            r == self.spec_is_error(),
    {
        self.error > FAILURE_THRESHOLD
    }

    /// The ambient around the power electronics is too hot: the mean
    /// cold-junction reading exceeds the ceiling. False while no reading is
    /// buffered.
    pub fn is_overheating(&self) -> (r: bool)
        requires
            self.wf(),
        ensures
            r == self.spec_is_overheating(),
    {
        let values = ring_to_vec(&self.internal_values);
        let ghost s = self.internal_window();
        if values.len() == 0 {
            return false;
        }
        proof {
            crate::ring::lemma_sum_of_bound(s, SAMPLE_LIMIT_CENTI as int);
        }
        let mut sum: i32 = 0;
        let mut i: usize = 0;
        while i < values.len()
            invariant
                0 <= i <= values.len(),
                values@ == s,
                s.len() <= 10,
                forall|j: int| 0 <= j < s.len()
                    ==> -SAMPLE_LIMIT_CENTI <= #[trigger] s[j] <= SAMPLE_LIMIT_CENTI,
                sum == sum_of(s.take(i as int)),
                -(i * SAMPLE_LIMIT_CENTI) <= sum <= i * SAMPLE_LIMIT_CENTI,
            decreases values.len() - i,
        {
            proof {
                assert(s.take(i + 1).drop_last() =~= s.take(i as int));
                crate::ring::lemma_sum_of_bound(s.take(i + 1), SAMPLE_LIMIT_CENTI as int);
            }
            sum = sum + values[i];
            i = i + 1;
        }
        proof {
            assert(s.take(s.len() as int) =~= s);
        }
        sum > OVERHEAT_LIMIT_CENTI * (values.len() as i32)
    }
}

} // verus!
