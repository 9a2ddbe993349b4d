//! ADSR amplitude envelope.
//!
//! One envelope shapes each voice's amplitude over a note's lifetime.
//! Levels are carried in billionths of full scale (`LEVEL_ONE` is 1.0) and
//! stage times in microseconds, so every transition of the state machine is
//! exact integer arithmetic. `spec_stepped` is the mathematical step
//! function; `next_sample` computes exactly that step.

use vstd::prelude::*;

verus! {

/// Full scale of an envelope level, in billionths (1.0).
pub const LEVEL_ONE: u32 = 1_000_000_000;

/// Release snaps to silence below this level (0.001 of full scale).
pub const RELEASE_FLOOR: u32 = LEVEL_ONE / 1000;

/// Shortest accepted stage time: one millisecond.
pub const MIN_STAGE_TIME_US: u32 = 1_000;

/// Longest accepted stage time: ten seconds.
pub const MAX_STAGE_TIME_US: u32 = 10_000_000;

/// Lowest supported sample rate, in hertz.
pub const MIN_SAMPLE_RATE: u32 = 1_000;

/// Highest supported sample rate, in hertz.
pub const MAX_SAMPLE_RATE: u32 = 1_000_000;

/// Microseconds in one second.
pub const MICROS_PER_SECOND: u32 = 1_000_000;

#[derive(Clone, Copy, Debug, PartialEq, Eq, Structural)]
pub enum EnvelopeStage {
    Attack,
    Decay,
    Sustain,
    Release,
    Idle,
}

/// ADSR envelope state. Times are microseconds, levels are billionths of
/// full scale, and `samples_in_stage` counts calls of `next_sample` since
/// the stage timer was last reset.
#[derive(Clone, Copy)]
pub struct Envelope {
    pub attack_us: u32,
    pub decay_us: u32,
    pub sustain_level: u32,
    pub release_us: u32,
    pub stage: EnvelopeStage,
    pub level: u32,
    pub sample_rate: u32,
    pub samples_in_stage: u64,
}

/// Number of samples a stage of `time_us` microseconds spans, at least 1.
pub open spec fn spec_stage_samples(time_us: u32, sample_rate: u32) -> int {
    let n: int = (time_us * sample_rate) / (MICROS_PER_SECOND as int);
    if n < 1 {
        1
    } else {
        n
    }
}

/// A stage time clamped to the accepted range.
pub open spec fn spec_clamp_time(time_us: u32) -> u32 {
    if time_us < MIN_STAGE_TIME_US {
        MIN_STAGE_TIME_US
    } else if time_us > MAX_STAGE_TIME_US {
        MAX_STAGE_TIME_US
    } else {
        time_us
    }
}

impl Envelope {
    /// Well-formedness: parameters in their clamp ranges and the level in
    /// range. Constructors establish it; every method preserves it.
    pub open spec fn wf(self) -> bool {
        &&& MIN_SAMPLE_RATE <= self.sample_rate <= MAX_SAMPLE_RATE
        &&& MIN_STAGE_TIME_US <= self.attack_us <= MAX_STAGE_TIME_US
        &&& MIN_STAGE_TIME_US <= self.decay_us <= MAX_STAGE_TIME_US
        &&& MIN_STAGE_TIME_US <= self.release_us <= MAX_STAGE_TIME_US
        &&& self.sustain_level <= LEVEL_ONE
        &&& self.level <= LEVEL_ONE
    }

    /// Per-sample level gain during attack, at least 1.
    pub open spec fn spec_attack_increment(self) -> int {
        let inc: int = (LEVEL_ONE as int) / spec_stage_samples(self.attack_us, self.sample_rate);
        if inc < 1 {
            1
        } else {
            inc
        }
    }

    /// Per-sample level loss during decay, at least 1.
    pub open spec fn spec_decay_decrement(self) -> int {
        let dec: int = (LEVEL_ONE - self.sustain_level) / spec_stage_samples(
            self.decay_us,
            self.sample_rate,
        );
        if dec < 1 {
            1
        } else {
            dec
        }
    }

    /// Per-sample level loss during release: at least 1 but never more
    /// than the remaining level.
    pub open spec fn spec_release_decrement(self) -> int {
        let dec: int = (self.level as int) / spec_stage_samples(self.release_us, self.sample_rate);
        let dec1: int = if dec < 1 {
            1
        } else {
            dec
        };
        if dec1 > self.level {
            self.level as int
        } else {
            dec1
        }
    }

    /// The level, stage, and stage-timer reset produced by one step.
    pub open spec fn spec_step_core(self) -> (u32, EnvelopeStage, bool) {
        match self.stage {
            EnvelopeStage::Attack => {
                let lv: int = self.level + self.spec_attack_increment();
                if lv >= LEVEL_ONE {
                    (LEVEL_ONE, EnvelopeStage::Decay, true)
                } else {
                    (lv as u32, EnvelopeStage::Attack, false)
                }
            },
            EnvelopeStage::Decay => {
                let dec: int = self.spec_decay_decrement();
                if self.level <= self.sustain_level + dec {
                    (self.sustain_level, EnvelopeStage::Sustain, false)
                } else {
                    ((self.level - dec) as u32, EnvelopeStage::Decay, false)
                }
            },
            EnvelopeStage::Sustain => (self.level, EnvelopeStage::Sustain, false),
            EnvelopeStage::Release => {
                let lv: int = self.level - self.spec_release_decrement();
                if lv < RELEASE_FLOOR {
                    (0, EnvelopeStage::Idle, false)
                } else {
                    (lv as u32, EnvelopeStage::Release, false)
                }
            },
            EnvelopeStage::Idle => (0, EnvelopeStage::Idle, false),
        }
    }

    /// The whole envelope after one call of `next_sample`.
    pub open spec fn spec_stepped(self) -> Envelope {
        let core = self.spec_step_core();
        let base: u64 = if core.2 {
            0
        } else {
            self.samples_in_stage
        };
        Envelope {
            level: core.0,
            stage: core.1,
            samples_in_stage: if base < u64::MAX {
                (base + 1) as u64
            } else {
                base
            },
            ..self
        }
    }

    /// A fresh envelope: idle, silent, with the default ADSR shape
    /// (100 ms attack, 100 ms decay, sustain at 0.7, 200 ms release).
    pub fn new(sample_rate: u32) -> (r: Envelope)
        requires
            MIN_SAMPLE_RATE <= sample_rate <= MAX_SAMPLE_RATE,
        ensures
            r.wf(),
            r.stage is Idle,
            r.level == 0,
            r.samples_in_stage == 0,
            r.attack_us == 100_000,
            r.decay_us == 100_000,
            r.sustain_level == 700_000_000,
            r.release_us == 200_000,
            r.sample_rate == sample_rate,
    {
        Envelope {
            attack_us: 100_000,
            decay_us: 100_000,
            sustain_level: 700_000_000,
            release_us: 200_000,
            stage: EnvelopeStage::Idle,
            level: 0,
            sample_rate,
            samples_in_stage: 0,
        }
    }

    /// Whether the envelope state is inside all its clamp ranges.
    pub fn is_well_formed(&self) -> (b: bool)
        ensures
            b == self.wf(),
    {
        MIN_SAMPLE_RATE <= self.sample_rate && self.sample_rate <= MAX_SAMPLE_RATE
            && MIN_STAGE_TIME_US <= self.attack_us && self.attack_us <= MAX_STAGE_TIME_US
            && MIN_STAGE_TIME_US <= self.decay_us && self.decay_us <= MAX_STAGE_TIME_US
            && MIN_STAGE_TIME_US <= self.release_us && self.release_us <= MAX_STAGE_TIME_US
            && self.sustain_level <= LEVEL_ONE && self.level <= LEVEL_ONE
    }

    /// Whether the envelope has gone silent.
    pub fn is_idle(&self) -> (b: bool)
        ensures
            b == (self.stage is Idle),
    {
        match self.stage {
            EnvelopeStage::Idle => true,
            _ => false,
        }
    }

    /// Advances the envelope by one sample and returns the new level.
    pub fn next_sample(&mut self) -> (r: u32)
        requires
            old(self).wf(),
        ensures
            *final(self) == (old(self).spec_stepped()),
            r == final(self).level,
            final(self).wf(),
    {
        match self.stage {
            EnvelopeStage::Attack => {
                let n = stage_samples(self.attack_us, self.sample_rate);
                let mut inc: u32 = LEVEL_ONE / n;
                if inc == 0 {
                    inc = 1;
                }
                let lv: u32 = self.level + inc;
                if lv >= LEVEL_ONE {
                    self.level = LEVEL_ONE;
                    self.stage = EnvelopeStage::Decay;
                    self.samples_in_stage = 0;
                } else {
                    self.level = lv;
                }
            },
            EnvelopeStage::Decay => {
                let n = stage_samples(self.decay_us, self.sample_rate);
                let mut dec: u32 = (LEVEL_ONE - self.sustain_level) / n;
                if dec == 0 {
                    dec = 1;
                }
                if self.level <= self.sustain_level + dec {
                    self.level = self.sustain_level;
                    self.stage = EnvelopeStage::Sustain;
                } else {
                    self.level = self.level - dec;
                }
            },
            EnvelopeStage::Sustain => {},
            EnvelopeStage::Release => {
                let n = stage_samples(self.release_us, self.sample_rate);
                let mut dec: u32 = self.level / n;
                if dec == 0 {
                    dec = 1;
                }
                if dec > self.level {
                    dec = self.level;
                }
                let lv: u32 = self.level - dec;
                if lv < RELEASE_FLOOR {
                    self.level = 0;
                    self.stage = EnvelopeStage::Idle;
                } else {
                    self.level = lv;
                }
            },
            EnvelopeStage::Idle => {
                self.level = 0;
            },
        }
        if self.samples_in_stage < u64::MAX {
            self.samples_in_stage = self.samples_in_stage + 1;
        }
        self.level
    }

    /// Starts (or retriggers) the note: attack begins from the current
    /// level, so a retrigger is click-free, but the stage timer resets.
    pub fn note_on(&mut self)
        ensures
            *final(self) == (Envelope {
                stage: EnvelopeStage::Attack,
                samples_in_stage: 0,
                ..*old(self)
            }),
    {
        self.stage = EnvelopeStage::Attack;
        self.samples_in_stage = 0;
    }

    /// Releases the note: the envelope heads for silence from any stage.
    pub fn note_off(&mut self)
        ensures
            *final(self) == (Envelope {
                stage: EnvelopeStage::Release,
                samples_in_stage: 0,
                ..*old(self)
            }),
    {
        self.stage = EnvelopeStage::Release;
        self.samples_in_stage = 0;
    }

    /// Sets the attack time, clamped to the accepted range.
    pub fn set_attack(&mut self, attack_us: u32)
        ensures
            *final(self) == (Envelope { attack_us: spec_clamp_time(attack_us), ..*old(self) }),
    {
        self.attack_us = clamp_time(attack_us);
    }

    /// Sets the decay time, clamped to the accepted range.
    pub fn set_decay(&mut self, decay_us: u32)
        ensures
            *final(self) == (Envelope { decay_us: spec_clamp_time(decay_us), ..*old(self) }),
    {
        self.decay_us = clamp_time(decay_us);
    }

    /// Sets the sustain level, clamped to full scale.
    pub fn set_sustain(&mut self, sustain_level: u32)
        ensures
            *final(self) == (Envelope {
                sustain_level: if sustain_level > LEVEL_ONE {
                    LEVEL_ONE
                } else {
                    sustain_level
                },
                ..*old(self)
            }),
    {
        if sustain_level > LEVEL_ONE {
            self.sustain_level = LEVEL_ONE;
        } else {
            self.sustain_level = sustain_level;
        }
    }

    /// Sets the release time, clamped to the accepted range.
    pub fn set_release(&mut self, release_us: u32)
        ensures
            *final(self) == (Envelope { release_us: spec_clamp_time(release_us), ..*old(self) }),
    {
        self.release_us = clamp_time(release_us);
    }
}

/// Number of samples a stage spans at the given rate, at least 1.
fn stage_samples(time_us: u32, sample_rate: u32) -> (n: u32)
    requires
        time_us <= MAX_STAGE_TIME_US,
        sample_rate <= MAX_SAMPLE_RATE,
    ensures
        n == spec_stage_samples(time_us, sample_rate),
        1 <= n <= 10_000_000,
{
    proof {
        vstd::arithmetic::mul::lemma_mul_upper_bound(
            time_us as int,
            MAX_STAGE_TIME_US as int,
            sample_rate as int,
            MAX_SAMPLE_RATE as int,
        );
        vstd::arithmetic::div_mod::lemma_div_is_ordered(
            (time_us as int) * (sample_rate as int),
            (MAX_STAGE_TIME_US as int) * (MAX_SAMPLE_RATE as int),
            MICROS_PER_SECOND as int,
        );
        vstd::arithmetic::mul::lemma_mul_nonnegative(time_us as int, sample_rate as int);
    }
    let prod: u64 = (time_us as u64) * (sample_rate as u64);
    let s: u32 = (prod / (MICROS_PER_SECOND as u64)) as u32;
    if s < 1 {
        1
    } else {
        s
    }
}

/// A stage time clamped to the accepted range.
fn clamp_time(time_us: u32) -> (r: u32)
    ensures
        r == spec_clamp_time(time_us),
{
    if time_us < MIN_STAGE_TIME_US {
        MIN_STAGE_TIME_US
    } else if time_us > MAX_STAGE_TIME_US {
        MAX_STAGE_TIME_US
    } else {
        time_us
    }
}

/// The envelope after `k` calls of `next_sample`.
pub open spec fn spec_stepped_n(e: Envelope, k: nat) -> Envelope
    decreases k,
{
    if k == 0 {
        e
    } else {
        spec_stepped_n(e, (k - 1) as nat).spec_stepped()
    }
}

/// One step preserves well-formedness.
pub proof fn lemma_step_preserves_wf(e: Envelope)
    requires
        e.wf(),
    ensures
        e.spec_stepped().wf(),
{
}

/// Prepending one step: stepping `k` times from `e` is stepping
/// `k − 1` times from `e` stepped once.
proof fn lemma_stepped_n_front(e: Envelope, k: nat)
    requires
        k >= 1,
    ensures
        spec_stepped_n(e, k) == spec_stepped_n(e.spec_stepped(), (k - 1) as nat),
    decreases k,
{
    if k == 1 {
        assert(spec_stepped_n(e, 0) == e);
        assert(spec_stepped_n(e.spec_stepped(), 0) == e.spec_stepped());
    } else {
        lemma_stepped_n_front(e, (k - 1) as nat);
    }
}

/// An idle envelope stays idle and silent: before any `note_on`, every
/// sample it produces is 0.
pub proof fn lemma_idle_stays_silent(e: Envelope)
    requires
        e.wf(),
        e.stage is Idle,
    ensures
        e.spec_stepped().level == 0,
        e.spec_stepped().stage is Idle,
        e.spec_stepped().wf(),
{
}

/// However many samples a fresh (idle, silent) envelope produces, it
/// stays idle and every level is 0 until a `note_on` arrives.
pub proof fn lemma_fresh_envelope_stays_silent(e: Envelope, k: nat)
    requires
        e.wf(),
        e.stage is Idle,
        e.level == 0,
    ensures
        spec_stepped_n(e, k).level == 0,
        spec_stepped_n(e, k).stage is Idle,
        spec_stepped_n(e, k).wf(),
    decreases k,
{
    if k > 0 {
        lemma_fresh_envelope_stays_silent(e, (k - 1) as nat);
        lemma_idle_stays_silent(spec_stepped_n(e, (k - 1) as nat));
    }
}

/// During attack the level strictly increases until it reaches full
/// scale, and the stage leaves attack exactly when it does.
pub proof fn lemma_attack_strictly_increases(e: Envelope)
    requires
        e.wf(),
        e.stage is Attack,
        e.level < LEVEL_ONE,
    ensures
        e.spec_stepped().level > e.level,
        e.spec_stepped().level <= LEVEL_ONE,
        e.spec_stepped().stage is Decay <==> e.spec_stepped().level == LEVEL_ONE,
        !(e.spec_stepped().stage is Decay) ==> e.spec_stepped().stage is Attack,
{
}

/// During sustain the level holds constant and the stage does not change.
pub proof fn lemma_sustain_holds(e: Envelope)
    requires
        e.wf(),
        e.stage is Sustain,
    ensures
        e.spec_stepped().level == e.level,
        e.spec_stepped().stage is Sustain,
{
}

/// However many samples a sustaining envelope produces, the level holds
/// constant and the stage stays sustain until an event arrives.
pub proof fn lemma_sustain_holds_forever(e: Envelope, k: nat)
    requires
        e.wf(),
        e.stage is Sustain,
    ensures
        spec_stepped_n(e, k).level == e.level,
        spec_stepped_n(e, k).stage is Sustain,
        spec_stepped_n(e, k).wf(),
    decreases k,
{
    if k > 0 {
        lemma_sustain_holds_forever(e, (k - 1) as nat);
        lemma_sustain_holds(spec_stepped_n(e, (k - 1) as nat));
    }
}

/// A releasing envelope reaches silence: after more samples than its
/// level has steps, it is idle at level 0 and stays so.
pub proof fn lemma_release_reaches_silence(e: Envelope, k: nat)
    requires
        e.wf(),
        e.stage is Release,
        k > e.level,
    ensures
        spec_stepped_n(e, k).stage is Idle,
        spec_stepped_n(e, k).level == 0,
    decreases k,
{
    lemma_stepped_n_front(e, k);
    lemma_step_preserves_wf(e);
    let e1 = e.spec_stepped();
    if e1.stage is Idle {
        lemma_fresh_envelope_stays_silent(e1, (k - 1) as nat);
    } else {
        lemma_release_strictly_decreases(e);
        lemma_release_reaches_silence(e1, (k - 1) as nat);
    }
}

/// During release the level strictly decreases toward 0, and the stage
/// becomes idle exactly when the level falls below `RELEASE_FLOOR`.
pub proof fn lemma_release_strictly_decreases(e: Envelope)
    requires
        e.wf(),
        e.stage is Release,
        e.level > 0,
    ensures
        e.spec_stepped().level < e.level,
        e.spec_stepped().stage is Idle <==> e.level - e.spec_release_decrement() < RELEASE_FLOOR,
        e.spec_stepped().stage is Idle ==> e.spec_stepped().level == 0,
        !(e.spec_stepped().stage is Idle) ==> e.spec_stepped().stage is Release,
{
}

} // verus!
