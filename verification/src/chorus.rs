//! Chorus control state.
//!
//! The chorus is a multi-tap modulated delay; its ring buffers, LFOs and
//! interpolated reads are per-sample floating-point work in the sample
//! path. Verified here is everything that configures them: the discrete
//! mode and its exact voice sets, the clamped rate, depth, feedback, mix
//! and saturation parameters, and the ±10% per-voice detuning of rate and
//! depth drawn from the chorus's own seeded generator.

use crate::rng::Xoshiro256PlusPlus;
use crate::rng::spec_seeded;
use vstd::arithmetic::div_mod::lemma_div_is_ordered;
use vstd::arithmetic::mul::lemma_mul_inequality;
use vstd::prelude::*;

verus! {

/// Rate clamp range, in thousandths of a hertz: 0.1 Hz to 10 Hz.
pub const MIN_CHORUS_RATE_MILLI: u32 = 100;

pub const MAX_CHORUS_RATE_MILLI: u32 = 10_000;

/// Highest accepted depth: 1.0, in thousandths.
pub const MAX_CHORUS_DEPTH_MILLI: u32 = 1_000;

/// Highest accepted feedback gain: 0.99, in thousandths.
pub const MAX_CHORUS_FEEDBACK_MILLI: u32 = 990;

/// Saturation drive clamp range, in thousandths: 1 to 10.
pub const MIN_SAT_DRIVE_MILLI: u32 = 1_000;

pub const MAX_SAT_DRIVE_MILLI: u32 = 10_000;

/// Length of the delay lines, in milliseconds.
pub const CHORUS_MAX_DELAY_MS: u32 = 40;

/// Seed of the generator that detunes the chorus voices.
pub const CHORUS_SEED: u64 = 1;

#[derive(Debug, Clone, Copy, PartialEq, Eq, Structural)]
pub enum ChorusMode {
    Off,
    I,
    II,
    III,
    IV,
}

/// One chorus voice's modulation parameters: LFO rates in thousandths of
/// a hertz (left and right slightly apart), depth in millionths of a
/// second.
#[derive(Debug, Clone, Copy, PartialEq, Eq, Structural)]
pub struct ChorusVoice {
    pub rate_left_milli: u32,
    pub rate_right_milli: u32,
    pub depth_micro: u32,
}

/// Chorus control state. `size` is the ring-buffer length in samples.
pub struct Chorus {
    pub sample_rate: u32,
    pub size: usize,
    pub mode: ChorusMode,
    pub feedback_milli: u32,
    pub rate_milli: u32,
    pub depth_milli: u32,
    pub wet_dry_milli: u32,
    pub sat_drive_milli: u32,
    pub voices: Vec<ChorusVoice>,
    pub rng: Xoshiro256PlusPlus,
}

/// The wet/dry fraction each mode selects, in thousandths.
pub open spec fn spec_mode_wet_dry(mode: ChorusMode) -> u32 {
    match mode {
        ChorusMode::Off => 0,
        ChorusMode::I => 500,
        ChorusMode::II => 800,
        ChorusMode::III => 500,
        ChorusMode::IV => 600,
    }
}

/// The exact voice set each mode installs.
pub open spec fn spec_mode_voices(mode: ChorusMode) -> Seq<ChorusVoice> {
    match mode {
        ChorusMode::Off => Seq::empty(),
        ChorusMode::I => seq![
            ChorusVoice { rate_left_milli: 513, rate_right_milli: 515, depth_micro: 5350 },
        ],
        ChorusMode::II => seq![
            ChorusVoice { rate_left_milli: 863, rate_right_milli: 865, depth_micro: 5350 },
        ],
        ChorusMode::III => seq![
            ChorusVoice { rate_left_milli: 513, rate_right_milli: 515, depth_micro: 3700 },
            ChorusVoice { rate_left_milli: 863, rate_right_milli: 865, depth_micro: 3700 },
        ],
        ChorusMode::IV => seq![
            ChorusVoice { rate_left_milli: 500, rate_right_milli: 502, depth_micro: 7000 },
            ChorusVoice { rate_left_milli: 750, rate_right_milli: 752, depth_micro: 6000 },
            ChorusVoice { rate_left_milli: 1000, rate_right_milli: 1002, depth_micro: 5000 },
            ChorusVoice { rate_left_milli: 1250, rate_right_milli: 1252, depth_micro: 4000 },
        ],
    }
}

/// The voice set a fresh chorus starts with.
pub open spec fn spec_default_voices() -> Seq<ChorusVoice> {
    seq![
        ChorusVoice { rate_left_milli: 513, rate_right_milli: 515, depth_micro: 700_000 },
        ChorusVoice { rate_left_milli: 750, rate_right_milli: 753, depth_micro: 600_000 },
        ChorusVoice { rate_left_milli: 950, rate_right_milli: 953, depth_micro: 500_000 },
    ]
}

/// `v` lies within ten percent of `base` (floor arithmetic on both ends).
pub open spec fn spec_within_ten_percent(v: u32, base: int) -> bool {
    (base * 900_000) / 1_000_000 <= v <= (base * 1_100_000) / 1_000_000
}

impl Chorus {
    /// Well-formedness: parameters inside their clamp ranges, the buffer
    /// sized to 40 ms, and at most four voices with bounded fields.
    pub open spec fn wf(self) -> bool {
        &&& crate::envelope::MIN_SAMPLE_RATE <= self.sample_rate <= crate::envelope::MAX_SAMPLE_RATE
        &&& self.size == (self.sample_rate * CHORUS_MAX_DELAY_MS) / 1000
        &&& self.feedback_milli <= MAX_CHORUS_FEEDBACK_MILLI
        &&& MIN_CHORUS_RATE_MILLI <= self.rate_milli <= MAX_CHORUS_RATE_MILLI
        &&& self.depth_milli <= MAX_CHORUS_DEPTH_MILLI
        &&& self.wet_dry_milli <= 1000
        &&& MIN_SAT_DRIVE_MILLI <= self.sat_drive_milli <= MAX_SAT_DRIVE_MILLI
        &&& self.voices@.len() <= 4
        &&& forall|i: int|
            0 <= i < self.voices@.len() ==> (#[trigger] self.voices@[i]).rate_left_milli <= 11_000
                && self.voices@[i].rate_right_milli <= 11_000 && self.voices@[i].depth_micro
                <= 1_100_000
    }

    /// A fresh chorus: bypassed, 40 ms buffers, three mildly detuned
    /// default voices, feedback 0.25, rate and depth 0.5, mix 0.5,
    /// saturation drive 1.2.
    pub fn new(sample_rate: u32) -> (r: Chorus)
        requires
            crate::envelope::MIN_SAMPLE_RATE <= sample_rate <= crate::envelope::MAX_SAMPLE_RATE,
        ensures
            r.wf(),
            r.sample_rate == sample_rate,
            r.mode is Off,
            r.size == (sample_rate * CHORUS_MAX_DELAY_MS) / 1000,
            r.feedback_milli == 250,
            r.rate_milli == 500,
            r.depth_milli == 500,
            r.wet_dry_milli == 500,
            r.sat_drive_milli == 1200,
            r.voices@ == spec_default_voices(),
            r.rng == spec_seeded(CHORUS_SEED),
    {
        let size: usize = ((sample_rate as usize) * (CHORUS_MAX_DELAY_MS as usize)) / 1000;
        let mut voices: Vec<ChorusVoice> = Vec::new();
        voices.push(ChorusVoice { rate_left_milli: 513, rate_right_milli: 515, depth_micro: 700_000 });
        voices.push(ChorusVoice { rate_left_milli: 750, rate_right_milli: 753, depth_micro: 600_000 });
        voices.push(ChorusVoice { rate_left_milli: 950, rate_right_milli: 953, depth_micro: 500_000 });
        proof {
            assert(voices@ =~= spec_default_voices());
        }
        Chorus {
            sample_rate,
            size,
            mode: ChorusMode::Off,
            feedback_milli: 250,
            rate_milli: 500,
            depth_milli: 500,
            wet_dry_milli: 500,
            sat_drive_milli: 1200,
            voices,
            rng: Xoshiro256PlusPlus::seed_from_u64(CHORUS_SEED),
        }
    }

    /// Sets the LFO rate, clamped to [0.1 Hz, 10 Hz], and re-randomizes
    /// each voice's actual left and right rates within ±10% of it, so
    /// the voices never modulate in lockstep.
    pub fn set_rate(&mut self, rate_milli: u32)
        requires
            old(self).wf(),
        ensures
            final(self).wf(),
            final(self).rate_milli == spec_clamp_rate(rate_milli),
            final(self).voices@.len() == old(self).voices@.len(),
            forall|i: int|
                0 <= i < final(self).voices@.len() ==> spec_within_ten_percent(
                    (#[trigger] final(self).voices@[i]).rate_left_milli,
                    spec_clamp_rate(rate_milli) as int,
                ) && spec_within_ten_percent(
                    final(self).voices@[i].rate_right_milli,
                    spec_clamp_rate(rate_milli) as int,
                ) && final(self).voices@[i].depth_micro == old(self).voices@[i].depth_micro,
            final(self).mode == old(self).mode,
            final(self).sample_rate == old(self).sample_rate,
            final(self).size == old(self).size,
            final(self).feedback_milli == old(self).feedback_milli,
            final(self).depth_milli == old(self).depth_milli,
            final(self).wet_dry_milli == old(self).wet_dry_milli,
            final(self).sat_drive_milli == old(self).sat_drive_milli,
    {
        let rate = clamp_rate(rate_milli);
        self.rate_milli = rate;
        let n = self.voices.len();
        let mut i: usize = 0;
        while i < n
            invariant
                i <= n,
                n == self.voices@.len() == old(self).voices@.len(),
                self.rate_milli == rate,
                MIN_CHORUS_RATE_MILLI <= rate <= MAX_CHORUS_RATE_MILLI,
                old(self).wf(),
                self.sample_rate == old(self).sample_rate,
                self.size == old(self).size,
                self.mode == old(self).mode,
                self.feedback_milli == old(self).feedback_milli,
                self.depth_milli == old(self).depth_milli,
                self.wet_dry_milli == old(self).wet_dry_milli,
                self.sat_drive_milli == old(self).sat_drive_milli,
                forall|k: int|
                    0 <= k < i ==> spec_within_ten_percent(
                        (#[trigger] self.voices@[k]).rate_left_milli,
                        rate as int,
                    ) && spec_within_ten_percent(self.voices@[k].rate_right_milli, rate as int)
                        && self.voices@[k].depth_micro == old(self).voices@[k].depth_micro,
                forall|k: int| i <= k < n ==> #[trigger] self.voices@[k] == old(self).voices@[k],
            decreases n - i,
        {
            let wl = self.rng.next_u32();
            let wr = self.rng.next_u32();
            let left = detuned(rate, wl);
            let right = detuned(rate, wr);
            let depth = self.voices[i].depth_micro;
            self.voices.set(
                i,
                ChorusVoice { rate_left_milli: left, rate_right_milli: right, depth_micro: depth },
            );
            i = i + 1;
        }
    }

    /// Sets the depth, clamped to [0, 1], and re-randomizes each voice's
    /// actual depth within ±10% of it.
    pub fn set_depth(&mut self, depth_milli: u32)
        requires
            old(self).wf(),
        ensures
            final(self).wf(),
            final(self).depth_milli == spec_clamp_depth(depth_milli),
            final(self).voices@.len() == old(self).voices@.len(),
            forall|i: int|
                0 <= i < final(self).voices@.len() ==> spec_within_ten_percent(
                    (#[trigger] final(self).voices@[i]).depth_micro,
                    spec_clamp_depth(depth_milli) * 1000,
                ) && final(self).voices@[i].rate_left_milli == old(self).voices@[i].rate_left_milli
                    && final(self).voices@[i].rate_right_milli == old(
                    self,
                ).voices@[i].rate_right_milli,
            final(self).mode == old(self).mode,
            final(self).sample_rate == old(self).sample_rate,
            final(self).size == old(self).size,
            final(self).feedback_milli == old(self).feedback_milli,
            final(self).rate_milli == old(self).rate_milli,
            final(self).wet_dry_milli == old(self).wet_dry_milli,
            final(self).sat_drive_milli == old(self).sat_drive_milli,
    {
        let depth = clamp_depth(depth_milli);
        self.depth_milli = depth;
        let n = self.voices.len();
        let mut i: usize = 0;
        while i < n
            invariant
                i <= n,
                n == self.voices@.len() == old(self).voices@.len(),
                self.depth_milli == depth,
                depth <= MAX_CHORUS_DEPTH_MILLI,
                old(self).wf(),
                self.sample_rate == old(self).sample_rate,
                self.size == old(self).size,
                self.mode == old(self).mode,
                self.feedback_milli == old(self).feedback_milli,
                self.rate_milli == old(self).rate_milli,
                self.wet_dry_milli == old(self).wet_dry_milli,
                self.sat_drive_milli == old(self).sat_drive_milli,
                forall|k: int|
                    0 <= k < i ==> spec_within_ten_percent(
                        (#[trigger] self.voices@[k]).depth_micro,
                        depth * 1000,
                    ) && self.voices@[k].rate_left_milli == old(self).voices@[k].rate_left_milli
                        && self.voices@[k].rate_right_milli == old(
                        self,
                    ).voices@[k].rate_right_milli,
                forall|k: int| i <= k < n ==> #[trigger] self.voices@[k] == old(self).voices@[k],
            decreases n - i,
        {
            let w = self.rng.next_u32();
            let d = detuned_depth(depth, w);
            let v = self.voices[i];
            self.voices.set(
                i,
                ChorusVoice {
                    rate_left_milli: v.rate_left_milli,
                    rate_right_milli: v.rate_right_milli,
                    depth_micro: d,
                },
            );
            i = i + 1;
        }
    }

    /// Selects a mode: installs its exact voice set and wet/dry mix.
    /// Mode `Off` empties the voice set and zeroes the mix, so the
    /// effect passes its input through.
    pub fn set_mode(&mut self, mode: ChorusMode)
        requires
            old(self).wf(),
        ensures
            final(self).wf(),
            final(self).mode == mode,
            final(self).wet_dry_milli == spec_mode_wet_dry(mode),
            final(self).voices@ == spec_mode_voices(mode),
            final(self).sample_rate == old(self).sample_rate,
            final(self).size == old(self).size,
            final(self).feedback_milli == old(self).feedback_milli,
            final(self).rate_milli == old(self).rate_milli,
            final(self).depth_milli == old(self).depth_milli,
            final(self).sat_drive_milli == old(self).sat_drive_milli,
            final(self).rng == old(self).rng,
    {
        self.mode = mode;
        self.wet_dry_milli = mode_wet_dry(mode);
        let mut voices: Vec<ChorusVoice> = Vec::new();
        match mode {
            ChorusMode::Off => {},
            ChorusMode::I => {
                voices.push(ChorusVoice { rate_left_milli: 513, rate_right_milli: 515, depth_micro: 5350 });
            },
            ChorusMode::II => {
                voices.push(ChorusVoice { rate_left_milli: 863, rate_right_milli: 865, depth_micro: 5350 });
            },
            ChorusMode::III => {
                voices.push(ChorusVoice { rate_left_milli: 513, rate_right_milli: 515, depth_micro: 3700 });
                voices.push(ChorusVoice { rate_left_milli: 863, rate_right_milli: 865, depth_micro: 3700 });
            },
            ChorusMode::IV => {
                voices.push(ChorusVoice { rate_left_milli: 500, rate_right_milli: 502, depth_micro: 7000 });
                voices.push(ChorusVoice { rate_left_milli: 750, rate_right_milli: 752, depth_micro: 6000 });
                voices.push(ChorusVoice { rate_left_milli: 1000, rate_right_milli: 1002, depth_micro: 5000 });
                voices.push(ChorusVoice { rate_left_milli: 1250, rate_right_milli: 1252, depth_micro: 4000 });
            },
        }
        proof {
            assert(voices@ =~= spec_mode_voices(mode));
        }
        self.voices = voices;
    }

    /// Sets the feedback gain, clamped to [0, 0.99].
    pub fn set_feedback(&mut self, feedback_milli: u32)
        ensures
            final(self).feedback_milli == if feedback_milli > MAX_CHORUS_FEEDBACK_MILLI {
                MAX_CHORUS_FEEDBACK_MILLI as int
            } else {
                feedback_milli as int
            },
            *final(self) == (Chorus { feedback_milli: final(self).feedback_milli, ..*old(self) }),
    {
        if feedback_milli > MAX_CHORUS_FEEDBACK_MILLI {
            self.feedback_milli = MAX_CHORUS_FEEDBACK_MILLI;
        } else {
            self.feedback_milli = feedback_milli;
        }
    }

    /// Sets the wet/dry mix, clamped to [0, 1].
    pub fn set_wet_dry_mix(&mut self, wet_dry_milli: u32)
        ensures
            final(self).wet_dry_milli == if wet_dry_milli > 1000 {
                1000int
            } else {
                wet_dry_milli as int
            },
            *final(self) == (Chorus { wet_dry_milli: final(self).wet_dry_milli, ..*old(self) }),
    {
        if wet_dry_milli > 1000 {
            self.wet_dry_milli = 1000;
        } else {
            self.wet_dry_milli = wet_dry_milli;
        }
    }

    /// Sets the saturation drive, clamped to [1, 10].
    pub fn set_drive(&mut self, drive_milli: u32)
        ensures
            final(self).sat_drive_milli == if drive_milli < MIN_SAT_DRIVE_MILLI {
                MIN_SAT_DRIVE_MILLI as int
            } else if drive_milli > MAX_SAT_DRIVE_MILLI {
                MAX_SAT_DRIVE_MILLI as int
            } else {
                drive_milli as int
            },
            *final(self) == (Chorus { sat_drive_milli: final(self).sat_drive_milli, ..*old(self) }),
    {
        if drive_milli < MIN_SAT_DRIVE_MILLI {
            self.sat_drive_milli = MIN_SAT_DRIVE_MILLI;
        } else if drive_milli > MAX_SAT_DRIVE_MILLI {
            self.sat_drive_milli = MAX_SAT_DRIVE_MILLI;
        } else {
            self.sat_drive_milli = drive_milli;
        }
    }
}

/// A requested rate clamped to its range.
pub open spec fn spec_clamp_rate(rate_milli: u32) -> u32 {
    if rate_milli < MIN_CHORUS_RATE_MILLI {
        MIN_CHORUS_RATE_MILLI
    } else if rate_milli > MAX_CHORUS_RATE_MILLI {
        MAX_CHORUS_RATE_MILLI
    } else {
        rate_milli
    }
}

/// A requested depth clamped to its range.
pub open spec fn spec_clamp_depth(depth_milli: u32) -> u32 {
    if depth_milli > MAX_CHORUS_DEPTH_MILLI {
        MAX_CHORUS_DEPTH_MILLI
    } else {
        depth_milli
    }
}

fn clamp_rate(rate_milli: u32) -> (r: u32)
    ensures
        r == spec_clamp_rate(rate_milli),
{
    if rate_milli < MIN_CHORUS_RATE_MILLI {
        MIN_CHORUS_RATE_MILLI
    } else if rate_milli > MAX_CHORUS_RATE_MILLI {
        MAX_CHORUS_RATE_MILLI
    } else {
        rate_milli
    }
}

fn clamp_depth(depth_milli: u32) -> (r: u32)
    ensures
        r == spec_clamp_depth(depth_milli),
{
    if depth_milli > MAX_CHORUS_DEPTH_MILLI {
        MAX_CHORUS_DEPTH_MILLI
    } else {
        depth_milli
    }
}

fn mode_wet_dry(mode: ChorusMode) -> (r: u32)
    ensures
        r == spec_mode_wet_dry(mode),
{
    match mode {
        ChorusMode::Off => 0,
        ChorusMode::I => 500,
        ChorusMode::II => 800,
        ChorusMode::III => 500,
        ChorusMode::IV => 600,
    }
}

/// `base` scaled by a factor drawn uniformly from [0.9, 1.1).
fn detuned(base: u32, w: u32) -> (r: u32)
    requires
        base <= 10_000,
    ensures
        spec_within_ten_percent(r, base as int),
        r <= 11_000,
{
    proof {
        lemma_mul_inequality(base as int, 10_000, 1_100_000);
        lemma_div_is_ordered((base as int) * 1_100_000, 10_000int * 1_100_000, 1_000_000);
        assert(10_000int * 1_100_000 / 1_000_000 == 11_000);
    }
    detuned_wide(base, w)
}

/// `depth` in thousandths scaled into millionths by a factor drawn
/// uniformly from [0.9, 1.1).
fn detuned_depth(depth_milli: u32, w: u32) -> (r: u32)
    requires
        depth_milli <= 1_000,
    ensures
        spec_within_ten_percent(r, depth_milli * 1000),
        r <= 1_100_000,
{
    proof {
        lemma_mul_inequality(depth_milli as int, 1_000, 1000);
    }
    detuned_wide(depth_milli * 1000, w)
}

/// `base` scaled by (900000 + w·200000/2^32) / 1000000.
fn detuned_wide(base: u32, w: u32) -> (r: u32)
    requires
        base <= 1_000_000,
    ensures
        spec_within_ten_percent(r, base as int),
        r <= (base as int) * 1_100_000 / 1_000_000,
{
    let factor: u64 = 900_000 + ((w as u64) * 200_000) / 0x1_0000_0000;
    proof {
        vstd::arithmetic::mul::lemma_mul_nonnegative(w as int, 200_000);
        vstd::arithmetic::div_mod::lemma_div_pos_is_pos((w as int) * 200_000, 0x1_0000_0000);
        lemma_mul_inequality(w as int, 0xFFFF_FFFF, 200_000);
        lemma_div_is_ordered((w as int) * 200_000, 0xFFFF_FFFFint * 200_000, 0x1_0000_0000);
        assert(0xFFFF_FFFFint * 200_000 / 0x1_0000_0000 == 199_999);
        assert(900_000 <= factor <= 1_099_999);
    }
    proof {
        vstd::arithmetic::mul::lemma_mul_upper_bound(base as int, 1_000_000, factor as int, 1_099_999);
        vstd::arithmetic::mul::lemma_mul_nonnegative(base as int, factor as int);
    }
    let scaled: u64 = ((base as u64) * factor) / 1_000_000;
    proof {
        vstd::arithmetic::mul::lemma_mul_is_commutative(base as int, factor as int);
        lemma_mul_inequality(900_000, factor as int, base as int);
        lemma_mul_inequality(factor as int, 1_100_000, base as int);
        vstd::arithmetic::mul::lemma_mul_is_commutative(base as int, 900_000);
        vstd::arithmetic::mul::lemma_mul_is_commutative(base as int, 1_100_000);
        lemma_div_is_ordered((base as int) * 900_000, (base as int) * (factor as int), 1_000_000);
        lemma_div_is_ordered((base as int) * (factor as int), (base as int) * 1_100_000, 1_000_000);
        vstd::arithmetic::mul::lemma_mul_nonnegative(base as int, 900_000);
        lemma_mul_inequality(base as int, 1_000_000, 1_100_000);
        lemma_div_is_ordered((base as int) * 1_100_000, 1_000_000int * 1_100_000, 1_000_000);
        assert(1_000_000int * 1_100_000 / 1_000_000 == 1_100_000);
    }
    scaled as u32
}

} // verus!
