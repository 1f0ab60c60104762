//! Quadrature decoding for the two rotary dials.
//!
//! The hardware counts knob edges on a circular counter; after the hardware
//! halves it, the counter lives in `0..512`. `get_steps` turns two successive
//! counter values and the hardware direction flag into a step magnitude,
//! rejecting implausibly fast movement as electrical noise. `EncoderReader`
//! applies the steps to the logical value a dial adjusts, clamped to that
//! dial's configured range.

use vstd::prelude::*;

verus! {

/// The circular distance travelled from `prev` to `current` on the 512-count
/// wheel, measured in the direction of the hardware direction flag
/// (`true` means the counter was counting down).
pub open spec fn circular_steps(direction: bool, prev: u16, current: u16) -> int {
    if direction {
        (prev - current) % 512
    } else {
        (current - prev) % 512
    }
}

/// What the decoder reports for one poll: the circular distance when it is a
/// believable knob movement (at most 50 counts per poll), and no movement at
/// all otherwise.
pub open spec fn decoded_steps(direction: bool, prev: u16, current: u16) -> int {
    if circular_steps(direction, prev, current) <= 50 {
        circular_steps(direction, prev, current)
    } else {
        0
    }
}

/// Converts one pair of successive counter samples into a step count.
///
/// A distance above 50 counts cannot come from real knob rotation at the poll
/// period used, so it is treated as overspeed noise and reported as no
/// movement.
pub fn get_steps(direction: bool, prev: u16, current: u16) -> (steps: u16)
    requires
        prev < 512,
        current < 512,
    ensures
        steps == decoded_steps(direction, prev, current),
{
    if prev == current {
        return 0;
    }
    let steps: u16 = if direction {
        if current > prev {
            // Counting down but the counter grew: it wrapped through zero.
            512 - current + prev
        } else {
            prev - current
        }
    } else {
        if current < prev {
            // Counting up but the counter shrank: it wrapped past the top.
            512 - prev + current
        } else {
            current - prev
        }
    };
    if steps > 50 {
        0
    } else {
        steps
    }
}

/// The logical value after `steps` dial steps: down saturates at zero, up
/// adds, and the result is clamped into `[low, high]`.
pub open spec fn stepped_value(direction: bool, current: u16, steps: int, low: u16, high: u16) -> int {
    let moved = if direction {
        if current - steps >= 0 {
            current - steps
        } else {
            0
        }
    } else {
        current + steps
    };
    if moved < low {
        low as int
    } else if moved > high {
        high as int
    } else {
        moved
    }
}

/// One hardware sample of a dial: the direction flag and the halved counter,
/// read outside the library.
pub struct DialSample {
    pub direction: bool,
    pub value: u16,
}

impl DialSample {
    /// The halved counter stays under the wheel size.
    pub open spec fn wf(self) -> bool {
        self.value < 512
    }
}

/// One dial: remembers the counter value of the previous poll and the range
/// the dial is allowed to produce.
pub struct EncoderReader {
    /// Counter value seen at the previous poll, in `0..512`.
    pub prev_value: u16,
    /// Smallest logical value the dial may produce.
    pub low_margin: u16,
    /// Largest logical value the dial may produce.
    pub high_margin: u16,
}

impl EncoderReader {
    pub open spec fn wf(self) -> bool {
        &&& self.prev_value < 512
        &&& self.low_margin <= self.high_margin
    }

    /// A dial starting at the given counter position with the given range.
    pub fn new(prev_value: u16, low_margin: u16, high_margin: u16) -> (r: EncoderReader)
        requires
            prev_value < 512,
            low_margin <= high_margin,
        ensures
            r.wf(),
            r == (EncoderReader { prev_value, low_margin, high_margin }),
    {
        EncoderReader { prev_value, low_margin, high_margin }
    }

    /// One poll of the dial: `direction` and `value` are the hardware's
    /// direction flag and halved counter, `current` is the logical value the
    /// dial adjusts. Reports `Some(new_value)` when the knob moved, `None`
    /// otherwise.
    pub fn read(&mut self, direction: bool, value: u16, current: u16) -> (r: Option<u16>)
        requires
            old(self).wf(),
            value < 512,
            current <= u16::MAX - 50,
        ensures
            final(self).wf(),
            final(self).low_margin == old(self).low_margin,
            final(self).high_margin == old(self).high_margin,
            ({
                let steps = decoded_steps(direction, old(self).prev_value, value);
                if steps == 0 {
                    r is None && *final(self) == *old(self)
                } else {
                    &&& r == Some(stepped_value(direction, current, steps,
                            old(self).low_margin, old(self).high_margin) as u16)
                    &&& final(self).prev_value == value
                }
            }),
            r is Some ==> old(self).low_margin <= r->0 <= old(self).high_margin,
    {
        let steps = get_steps(direction, self.prev_value, value);
        if steps != 0 {
            self.prev_value = value;
            let moved: u16 = if direction {
                if current >= steps {
                    current - steps
                } else {
                    0
                }
            } else {
                current + steps
            };
            let next_value: u16 = if moved < self.low_margin {
                self.low_margin
            } else if moved > self.high_margin {
                self.high_margin
            } else {
                moved
            };
            Some(next_value)
        } else {
            None
        }
    }
}

} // verus!
