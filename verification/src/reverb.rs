//! Reverb control state.
//!
//! The reverb is an early-reflection tap line feeding a four-line damped
//! feedback-delay network with modulation and shelving EQ; that signal
//! path is floating-point work outside the verified core. Verified here
//! are the externally settable parameters — decay, damping, wet/dry —
//! with their clamp ranges, and the integer geometry of the network: the
//! delay-line lengths and the feedback-matrix weight, whose decay clamp
//! below 1.0 is what keeps the network stable.

use vstd::prelude::*;

verus! {

/// Highest accepted decay: 0.98 of the feedback path, in thousandths.
/// Keeping it below 1.0 keeps the feedback-delay network stable.
pub const MAX_REVERB_DECAY_MILLI: u32 = 980;

/// Number of delay lines in the late-reflection network.
pub const REVERB_LINES: usize = 4;

/// Reverb control state, in thousandths of the natural unit.
pub struct Reverb {
    pub sample_rate: u32,
    pub decay_milli: u32,
    pub damping_milli: u32,
    pub wet_milli: u32,
    pub dry_milli: u32,
}

/// Milliseconds of the late-reflection delay lines: prime-ish, mutually
/// detuned lengths.
pub open spec fn spec_line_delay_ms(i: int) -> int {
    if i == 0 {
        29
    } else if i == 1 {
        37
    } else if i == 2 {
        43
    } else {
        53
    }
}

/// Delay of the early-reflection taps, in hundreds of nanoseconds
/// (7 ms, 12.243 ms, 15.4443 ms, 23.405 ms).
pub open spec fn spec_early_delay_100ns(i: int) -> int {
    if i == 0 {
        70_000
    } else if i == 1 {
        122_430
    } else if i == 2 {
        154_443
    } else {
        234_050
    }
}

impl Reverb {
    /// Well-formedness: every parameter in range and the dry fraction the
    /// complement of the wet one.
    pub open spec fn wf(self) -> bool {
        &&& crate::envelope::MIN_SAMPLE_RATE <= self.sample_rate <= crate::envelope::MAX_SAMPLE_RATE
        &&& self.decay_milli <= MAX_REVERB_DECAY_MILLI
        &&& self.damping_milli <= 1000
        &&& self.wet_milli <= 1000
        &&& self.dry_milli == 1000 - self.wet_milli
    }

    /// A fresh reverb: short decay, moderate damping, 70% wet.
    pub fn new(sample_rate: u32) -> (r: Reverb)
        requires
            crate::envelope::MIN_SAMPLE_RATE <= sample_rate <= crate::envelope::MAX_SAMPLE_RATE,
        ensures
            r.wf(),
            r.sample_rate == sample_rate,
            r.decay_milli == 100,
            r.damping_milli == 500,
            r.wet_milli == 700,
            r.dry_milli == 300,
    {
        Reverb { sample_rate, decay_milli: 100, damping_milli: 500, wet_milli: 700, dry_milli: 300 }
    }

    /// Sets the decay, clamped to [0, 0.98]: the feedback gain stays
    /// below 1, so the network cannot run away.
    pub fn set_decay(&mut self, decay_milli: u32)
        ensures
            final(self).decay_milli == if decay_milli > MAX_REVERB_DECAY_MILLI {
                MAX_REVERB_DECAY_MILLI as int
            } else {
                decay_milli as int
            },
            *final(self) == (Reverb { decay_milli: final(self).decay_milli, ..*old(self) }),
    {
        if decay_milli > MAX_REVERB_DECAY_MILLI {
            self.decay_milli = MAX_REVERB_DECAY_MILLI;
        } else {
            self.decay_milli = decay_milli;
        }
    }

    /// Sets the wet fraction, clamped to [0, 1]; the dry fraction is
    /// always its complement, so at wet 0 the output is the dry input.
    pub fn set_wet(&mut self, wet_milli: u32)
        ensures
            final(self).wet_milli == if wet_milli > 1000 {
                1000int
            } else {
                wet_milli as int
            },
            final(self).dry_milli == 1000 - final(self).wet_milli,
            final(self).sample_rate == old(self).sample_rate,
            final(self).decay_milli == old(self).decay_milli,
            final(self).damping_milli == old(self).damping_milli,
    {
        if wet_milli > 1000 {
            self.wet_milli = 1000;
        } else {
            self.wet_milli = wet_milli;
        }
        self.dry_milli = 1000 - self.wet_milli;
    }

    /// The current wet fraction, in thousandths.
    pub fn get_wet(&self) -> (w: u32)
        ensures
            w == self.wet_milli,
    {
        self.wet_milli
    }

    /// Length in samples of late-reflection line `i`.
    pub fn line_delay_samples(&self, i: usize) -> (n: usize)
        requires
            self.wf(),
            i < REVERB_LINES,
        ensures
            n == (spec_line_delay_ms(i as int) * self.sample_rate) / 1000,
            1 <= n <= 53_000,
    {
        let ms: usize = if i == 0 {
            29
        } else if i == 1 {
            37
        } else if i == 2 {
            43
        } else {
            53
        };
        (ms * (self.sample_rate as usize)) / 1000
    }

    /// Length in samples of early-reflection tap `i`.
    pub fn early_delay_samples(&self, i: usize) -> (n: usize)
        requires
            self.wf(),
            i < 4,
        ensures
            n == (spec_early_delay_100ns(i as int) * self.sample_rate) / 10_000_000,
            n <= 23_405,
    {
        let d: u64 = if i == 0 {
            70_000
        } else if i == 1 {
            122_430
        } else if i == 2 {
            154_443
        } else {
            234_050
        };
        proof {
            vstd::arithmetic::mul::lemma_mul_upper_bound(
                d as int,
                234_050,
                self.sample_rate as int,
                1_000_000,
            );
            vstd::arithmetic::mul::lemma_mul_nonnegative(d as int, self.sample_rate as int);
            vstd::arithmetic::div_mod::lemma_div_is_ordered(
                (d as int) * (self.sample_rate as int),
                234_050int * 1_000_000,
                10_000_000,
            );
        }
        let n: u64 = (d * (self.sample_rate as u64)) / 10_000_000;
        n as usize
    }

    /// The off-diagonal weight of the feedback coupling matrix, in
    /// millionths: 0.05 spread over the other lines; the diagonal is
    /// zero.
    pub fn feedback_coupling_micro(&self) -> (c: u32)
        ensures
            c == 50_000int / ((REVERB_LINES - 1) as int),
    {
        50_000 / ((REVERB_LINES as u32) - 1)
    }
}

} // verus!
