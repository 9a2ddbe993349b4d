//! Ladder filter control state.
//!
//! The four cascaded one-pole stages, the feedback path and the saturation
//! stage are per-sample floating-point work and live in the sample path;
//! what is verified here is the state they are driven by: clamped cutoff,
//! resonance, drive and saturation parameters, and the per-stage
//! transistor-mismatch coefficients drawn once at construction from the
//! filter's own seeded generator (about ±0.25% around unity).

use crate::rng::Xoshiro256PlusPlus;
use crate::rng::spec_seeded;
use vstd::arithmetic::div_mod::lemma_div_is_ordered;
use vstd::arithmetic::div_mod::lemma_div_multiples_vanish;
use vstd::prelude::*;

verus! {

/// Lowest accepted cutoff: 20 Hz, in millihertz.
pub const MIN_CUTOFF_MILLIHZ: u64 = 20_000;

/// Highest accepted resonance: 4.0, in thousandths.
pub const MAX_RESONANCE_MILLI: u32 = 4_000;

/// Drive clamp range, in thousandths: 0.1 to 10.
pub const MIN_DRIVE_MILLI: u32 = 100;

pub const MAX_DRIVE_MILLI: u32 = 10_000;

/// Highest accepted saturation: 2.0, in thousandths.
pub const MAX_SATURATION_MILLI: u32 = 2_000;

/// Nonlinear lowpass in the classic ladder topology. Parameters are held
/// in integer units: cutoff in millihertz, resonance, drive and
/// saturation in thousandths, and one mismatch coefficient per stage in
/// millionths, fixed at construction.
#[derive(Clone, Copy)]
pub struct LadderFilter {
    pub sample_rate: u32,
    pub cutoff_millihz: u64,
    pub resonance_milli: u32,
    pub drive_milli: u32,
    pub saturation_milli: u32,
    pub mismatch_ppm: (u32, u32, u32, u32),
    pub rng: Xoshiro256PlusPlus,
}

/// The Nyquist-safe cutoff ceiling: 0.49 of the sample rate, in
/// millihertz.
pub open spec fn spec_cutoff_ceiling_millihz(sample_rate: u32) -> int {
    sample_rate * 490
}

/// A requested cutoff clamped to (20 Hz, 0.49 · sample rate).
pub open spec fn spec_clamp_cutoff(cutoff_millihz: u64, sample_rate: u32) -> int {
    if cutoff_millihz < MIN_CUTOFF_MILLIHZ {
        MIN_CUTOFF_MILLIHZ as int
    } else if cutoff_millihz > spec_cutoff_ceiling_millihz(sample_rate) {
        spec_cutoff_ceiling_millihz(sample_rate)
    } else {
        cutoff_millihz as int
    }
}

/// A mismatch coefficient derived from one generator word: unity plus
/// (w / u32::MAX − 1/2) · 0.005, in millionths.
pub open spec fn spec_mismatch_ppm(w: u32) -> int {
    997_500 + (w * 5_000) / 0xFFFF_FFFF
}

impl LadderFilter {
    /// Well-formedness: every parameter inside its clamp range, and the
    /// four mismatch coefficients fixed within ±0.25% of unity.
    pub open spec fn wf(self) -> bool {
        &&& crate::envelope::MIN_SAMPLE_RATE <= self.sample_rate <= crate::envelope::MAX_SAMPLE_RATE
        &&& MIN_CUTOFF_MILLIHZ <= self.cutoff_millihz <= spec_cutoff_ceiling_millihz(
            self.sample_rate,
        )
        &&& self.resonance_milli <= MAX_RESONANCE_MILLI
        &&& MIN_DRIVE_MILLI <= self.drive_milli <= MAX_DRIVE_MILLI
        &&& self.saturation_milli <= MAX_SATURATION_MILLI
        &&& 997_500 <= self.mismatch_ppm.0 <= 1_002_500
        &&& 997_500 <= self.mismatch_ppm.1 <= 1_002_500
        &&& 997_500 <= self.mismatch_ppm.2 <= 1_002_500
        &&& 997_500 <= self.mismatch_ppm.3 <= 1_002_500
    }

    /// A fresh filter: cutoff 1 kHz (Nyquist-clamped at low rates), no
    /// resonance, unity drive and saturation, mismatch drawn from a
    /// generator seeded with 0.
    pub fn new(sample_rate: u32) -> (r: LadderFilter)
        requires
            crate::envelope::MIN_SAMPLE_RATE <= sample_rate <= crate::envelope::MAX_SAMPLE_RATE,
        ensures
            r.wf(),
            r.sample_rate == sample_rate,
            r.cutoff_millihz == spec_clamp_cutoff(1_000_000, sample_rate),
            r.resonance_milli == 0,
            r.drive_milli == 1000,
            r.saturation_milli == 1000,
            r.mismatch_ppm.0 == spec_mismatch_ppm(spec_seeded(0).spec_output()),
            r.mismatch_ppm.1 == spec_mismatch_ppm(spec_seeded(0).spec_stepped().spec_output()),
            r.mismatch_ppm.2 == spec_mismatch_ppm(
                spec_seeded(0).spec_stepped().spec_stepped().spec_output(),
            ),
            r.mismatch_ppm.3 == spec_mismatch_ppm(
                spec_seeded(0).spec_stepped().spec_stepped().spec_stepped().spec_output(),
            ),
    {
        let mut filter = LadderFilter {
            sample_rate,
            cutoff_millihz: MIN_CUTOFF_MILLIHZ,
            resonance_milli: 0,
            drive_milli: 1000,
            saturation_milli: 1000,
            mismatch_ppm: (1_000_000, 1_000_000, 1_000_000, 1_000_000),
            rng: Xoshiro256PlusPlus::seed_from_u64(0),
        };
        filter.set_cutoff(1_000_000);
        filter.randomize_transistors();
        filter
    }

    /// Sets the cutoff, clamped to (20 Hz, 0.49 · sample rate).
    pub fn set_cutoff(&mut self, cutoff_millihz: u64)
        requires
            crate::envelope::MIN_SAMPLE_RATE <= old(self).sample_rate
                <= crate::envelope::MAX_SAMPLE_RATE,
        ensures
            final(self).cutoff_millihz == spec_clamp_cutoff(cutoff_millihz, old(self).sample_rate),
            *final(self) == (LadderFilter {
                cutoff_millihz: final(self).cutoff_millihz,
                ..*old(self)
            }),
    {
        let ceiling: u64 = (self.sample_rate as u64) * 490;
        if cutoff_millihz < MIN_CUTOFF_MILLIHZ {
            self.cutoff_millihz = MIN_CUTOFF_MILLIHZ;
        } else if cutoff_millihz > ceiling {
            self.cutoff_millihz = ceiling;
        } else {
            self.cutoff_millihz = cutoff_millihz;
        }
    }

    /// Sets the resonance, clamped to [0, 4].
    pub fn set_resonance(&mut self, resonance_milli: u32)
        ensures
            final(self).resonance_milli == if resonance_milli > MAX_RESONANCE_MILLI {
                MAX_RESONANCE_MILLI as int
            } else {
                resonance_milli as int
            },
            *final(self) == (LadderFilter {
                resonance_milli: final(self).resonance_milli,
                ..*old(self)
            }),
    {
        if resonance_milli > MAX_RESONANCE_MILLI {
            self.resonance_milli = MAX_RESONANCE_MILLI;
        } else {
            self.resonance_milli = resonance_milli;
        }
    }

    /// Sets the drive, clamped to [0.1, 10].
    pub fn set_drive(&mut self, drive_milli: u32)
        ensures
            final(self).drive_milli == if drive_milli < MIN_DRIVE_MILLI {
                MIN_DRIVE_MILLI as int
            } else if drive_milli > MAX_DRIVE_MILLI {
                MAX_DRIVE_MILLI as int
            } else {
                drive_milli as int
            },
            *final(self) == (LadderFilter { drive_milli: final(self).drive_milli, ..*old(self) }),
    {
        if drive_milli < MIN_DRIVE_MILLI {
            self.drive_milli = MIN_DRIVE_MILLI;
        } else if drive_milli > MAX_DRIVE_MILLI {
            self.drive_milli = MAX_DRIVE_MILLI;
        } else {
            self.drive_milli = drive_milli;
        }
    }

    /// Sets the saturation, clamped to [0, 2].
    pub fn set_saturation(&mut self, saturation_milli: u32)
        ensures
            final(self).saturation_milli == if saturation_milli > MAX_SATURATION_MILLI {
                MAX_SATURATION_MILLI as int
            } else {
                saturation_milli as int
            },
            *final(self) == (LadderFilter {
                saturation_milli: final(self).saturation_milli,
                ..*old(self)
            }),
    {
        if saturation_milli > MAX_SATURATION_MILLI {
            self.saturation_milli = MAX_SATURATION_MILLI;
        } else {
            self.saturation_milli = saturation_milli;
        }
    }

    /// Whether the filter state is inside all its clamp ranges.
    pub fn is_well_formed(&self) -> (b: bool)
        ensures
            b == self.wf(),
    {
        crate::envelope::MIN_SAMPLE_RATE <= self.sample_rate && self.sample_rate
            <= crate::envelope::MAX_SAMPLE_RATE && MIN_CUTOFF_MILLIHZ <= self.cutoff_millihz
            && self.cutoff_millihz <= (self.sample_rate as u64) * 490 && self.resonance_milli
            <= MAX_RESONANCE_MILLI && MIN_DRIVE_MILLI <= self.drive_milli && self.drive_milli
            <= MAX_DRIVE_MILLI && self.saturation_milli <= MAX_SATURATION_MILLI && 997_500
            <= self.mismatch_ppm.0 && self.mismatch_ppm.0 <= 1_002_500 && 997_500
            <= self.mismatch_ppm.1 && self.mismatch_ppm.1 <= 1_002_500 && 997_500
            <= self.mismatch_ppm.2 && self.mismatch_ppm.2 <= 1_002_500 && 997_500
            <= self.mismatch_ppm.3 && self.mismatch_ppm.3 <= 1_002_500
    }

    /// Draws the four transistor-mismatch coefficients from the filter's
    /// own generator; every other parameter is left alone.
    fn randomize_transistors(&mut self)
        ensures
            final(self).mismatch_ppm.0 == spec_mismatch_ppm(old(self).rng.spec_output()),
            final(self).mismatch_ppm.1 == spec_mismatch_ppm(
                old(self).rng.spec_stepped().spec_output(),
            ),
            final(self).mismatch_ppm.2 == spec_mismatch_ppm(
                old(self).rng.spec_stepped().spec_stepped().spec_output(),
            ),
            final(self).mismatch_ppm.3 == spec_mismatch_ppm(
                old(self).rng.spec_stepped().spec_stepped().spec_stepped().spec_output(),
            ),
            997_500 <= final(self).mismatch_ppm.0 <= 1_002_500,
            997_500 <= final(self).mismatch_ppm.1 <= 1_002_500,
            997_500 <= final(self).mismatch_ppm.2 <= 1_002_500,
            997_500 <= final(self).mismatch_ppm.3 <= 1_002_500,
            final(self).rng == old(
                self,
            ).rng.spec_stepped().spec_stepped().spec_stepped().spec_stepped(),
            final(self).sample_rate == old(self).sample_rate,
            final(self).cutoff_millihz == old(self).cutoff_millihz,
            final(self).resonance_milli == old(self).resonance_milli,
            final(self).drive_milli == old(self).drive_milli,
            final(self).saturation_milli == old(self).saturation_milli,
    {
        let w0 = self.rng.next_u32();
        let w1 = self.rng.next_u32();
        let w2 = self.rng.next_u32();
        let w3 = self.rng.next_u32();
        self.mismatch_ppm = (mismatch_ppm(w0), mismatch_ppm(w1), mismatch_ppm(w2), mismatch_ppm(w3));
    }
}

/// Unity plus (w / u32::MAX − 1/2) · 0.005, in millionths.
fn mismatch_ppm(w: u32) -> (m: u32)
    ensures
        m == spec_mismatch_ppm(w),
        997_500 <= m <= 1_002_500,
{
    proof {
        lemma_div_is_ordered((w as int) * 5_000, 0xFFFF_FFFFint * 5_000, 0xFFFF_FFFF);
        lemma_div_multiples_vanish(5_000, 0xFFFF_FFFF);
        vstd::arithmetic::mul::lemma_mul_nonnegative(w as int, 5_000);
        vstd::arithmetic::div_mod::lemma_div_pos_is_pos((w as int) * 5_000, 0xFFFF_FFFF);
    }
    let v: u64 = (w as u64) * 5_000 / 0xFFFF_FFFF;
    997_500 + (v as u32)
}

} // verus!
