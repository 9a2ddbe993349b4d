//! Oscillator control state and equal-tempered tuning.
//!
//! The oscillator's shared parameters — frequency, volume, waveform and
//! detune ratio — live here; the per-sample waveform synthesis that reads
//! them is part of the unverified sample path. Frequencies are carried in
//! millihertz, so `note_to_frequency` is exact integer arithmetic: note 69
//! maps to 440 Hz exactly, and the mapping is strictly increasing.

use vstd::arithmetic::div_mod::lemma_div_is_ordered;
use vstd::arithmetic::div_mod::lemma_div_plus_one;
use vstd::arithmetic::div_mod::lemma_fundamental_div_mod;
use vstd::arithmetic::div_mod::lemma_fundamental_div_mod_converse;
use vstd::arithmetic::mul::lemma_mul_inequality;
use vstd::arithmetic::mul::lemma_mul_upper_bound;
use vstd::arithmetic::power2::lemma2_to64;
use vstd::arithmetic::power2::lemma_pow2_adds;
use vstd::arithmetic::power2::lemma_pow2_pos;
use vstd::arithmetic::power2::pow2;
use vstd::prelude::*;

verus! {

#[derive(Debug, Clone, Copy, PartialEq, Eq, Structural)]
pub enum Waveform {
    Sine,
    Square,
    Sawtooth,
    Triangle,
}

/// Oscillator control state. The phase accumulator belongs to the sample
/// path; what is shared across threads — frequency (millihertz), volume
/// (thousandths of unity gain), waveform, detune ratio (millionths) —
/// is held here.
#[derive(Clone, Copy)]
pub struct Oscillator {
    pub sample_rate: u32,
    pub frequency_millihz: u64,
    pub volume_milli: u32,
    pub waveform: Waveform,
    pub detune_micro: u32,
}

/// Millihertz of the twelve equal-tempered semitones of the octave that
/// starts at A4 (440 Hz): 440000 · 2^(r/12), rounded to the nearest.
pub open spec fn spec_semitone_millihz(r: int) -> int {
    if r == 0 {
        440_000
    } else if r == 1 {
        466_164
    } else if r == 2 {
        493_883
    } else if r == 3 {
        523_251
    } else if r == 4 {
        554_365
    } else if r == 5 {
        587_330
    } else if r == 6 {
        622_254
    } else if r == 7 {
        659_255
    } else if r == 8 {
        698_456
    } else if r == 9 {
        739_989
    } else if r == 10 {
        783_991
    } else {
        830_609
    }
}

/// Millihertz of MIDI note `note`: the equal-tempered formula
/// 440 · 2^((note − 69)/12) Hz, carried out on the semitone table. With
/// m = note + 3, the note sits (m % 12) semitones above A of octave
/// m / 12, and A4 itself falls in octave 6, whence the division by 64.
pub open spec fn spec_note_freq_millihz(note: int) -> int
    recommends
        0 <= note,
{
    let m: int = note + 3;
    (spec_semitone_millihz(m % 12) * pow2((m / 12) as nat)) / 64
}

impl Oscillator {
    /// A fresh oscillator: sawtooth, full volume, 0.1% detune.
    pub fn new(sample_rate: u32, frequency_millihz: u64) -> (r: Oscillator)
        ensures
            r.sample_rate == sample_rate,
            r.frequency_millihz == frequency_millihz,
            r.volume_milli == 1000,
            r.waveform is Sawtooth,
            r.detune_micro == 1000,
    {
        Oscillator {
            sample_rate,
            frequency_millihz,
            volume_milli: 1000,
            waveform: Waveform::Sawtooth,
            detune_micro: 1000,
        }
    }

    /// Sets the frequency, in millihertz.
    pub fn set_frequency(&mut self, frequency_millihz: u64)
        ensures
            *final(self) == (Oscillator { frequency_millihz, ..*old(self) }),
    {
        self.frequency_millihz = frequency_millihz;
    }

    /// Sets the volume, in thousandths of unity gain.
    pub fn set_volume(&mut self, volume_milli: u32)
        ensures
            *final(self) == (Oscillator { volume_milli, ..*old(self) }),
    {
        self.volume_milli = volume_milli;
    }

    /// Selects the waveform.
    pub fn set_waveform(&mut self, waveform: Waveform)
        ensures
            *final(self) == (Oscillator { waveform, ..*old(self) }),
    {
        self.waveform = waveform;
    }

    /// Frequency of a MIDI note in millihertz, by the equal-tempered
    /// formula. Note 69 gives exactly 440000 (440 Hz).
    pub fn note_to_frequency(note: u8) -> (f: u64)
        ensures
            f == spec_note_freq_millihz(note as int),
            f >= 1,
    {
        let m: u32 = (note as u32) + 3;
        let r: u32 = m % 12;
        let q: u32 = m / 12;
        let sem: u64 = semitone_millihz(r);
        let p: u64 = pow2_u64(q);
        proof {
            lemma2_to64();
            lemma_mul_upper_bound(sem as int, 830_609, p as int, pow2(21) as int);
            vstd::arithmetic::mul::lemma_mul_nonnegative(sem as int, p as int);
            lemma_mul_inequality(1, sem as int, p as int);
            lemma_div_is_ordered(64, (sem as int) * (p as int), 64);
        }
        sem * p / 64
    }
}

/// The semitone table, as executable code.
fn semitone_millihz(r: u32) -> (s: u64)
    requires
        r < 12,
    ensures
        s == spec_semitone_millihz(r as int),
        440_000 <= s <= 830_609,
{
    if r == 0 {
        440_000
    } else if r == 1 {
        466_164
    } else if r == 2 {
        493_883
    } else if r == 3 {
        523_251
    } else if r == 4 {
        554_365
    } else if r == 5 {
        587_330
    } else if r == 6 {
        622_254
    } else if r == 7 {
        659_255
    } else if r == 8 {
        698_456
    } else if r == 9 {
        739_989
    } else if r == 10 {
        783_991
    } else {
        830_609
    }
}

/// 2 to the `e`-th, for exponents up to 21.
fn pow2_u64(e: u32) -> (r: u64)
    requires
        e <= 21,
    ensures
        r == pow2(e as nat),
{
    let mut p: u64 = 1;
    let mut i: u32 = 0;
    proof {
        lemma2_to64();
    }
    while i < e
        invariant
            i <= e <= 21,
            p == pow2(i as nat),
        decreases e - i,
    {
        proof {
            lemma_pow2_adds(i as nat, 1);
            lemma2_to64();
            vstd::arithmetic::power2::lemma_pow2_strictly_increases(i as nat, 21);
        }
        p = p * 2;
        i = i + 1;
    }
    p
}

/// One semitone up is strictly higher in frequency.
proof fn lemma_note_frequency_step(n: int)
    requires
        0 <= n < 255,
    ensures
        spec_note_freq_millihz(n) < spec_note_freq_millihz(n + 1),
{
    let m: int = n + 3;
    let q: int = m / 12;
    let r: int = m % 12;
    lemma_fundamental_div_mod(m, 12);
    let p: int = pow2(q as nat) as int;
    lemma_pow2_pos(q as nat);
    if r < 11 {
        lemma_fundamental_div_mod_converse(m + 1, 12, q, r + 1);
        let a: int = spec_semitone_millihz(r) * p;
        let b: int = spec_semitone_millihz(r + 1) * p;
        assert(spec_semitone_millihz(r + 1) - spec_semitone_millihz(r) >= 26_164);
        assert(b - a >= 26_164 * p) by (nonlinear_arith)
            requires
                b == spec_semitone_millihz(r + 1) * p,
                a == spec_semitone_millihz(r) * p,
                spec_semitone_millihz(r + 1) - spec_semitone_millihz(r) >= 26_164,
                p >= 1,
        ;
        lemma_mul_inequality(1, 26_164, p);
        assert(a + 64 <= b);
        lemma_div_plus_one(a, 64);
        lemma_div_is_ordered(a + 64, b, 64);
        assert(spec_note_freq_millihz(n) == a / 64);
        assert(spec_note_freq_millihz(n + 1) == b / 64);
    } else {
        lemma_fundamental_div_mod_converse(m + 1, 12, q + 1, 0);
        lemma_pow2_adds(q as nat, 1);
        lemma2_to64();
        let a: int = spec_semitone_millihz(11) * p;
        let b: int = spec_semitone_millihz(0) * (pow2((q + 1) as nat) as int);
        assert(b == 880_000 * p) by (nonlinear_arith)
            requires
                b == 440_000 * (pow2((q + 1) as nat) as int),
                pow2((q + 1) as nat) == pow2(q as nat) * 2,
                p == pow2(q as nat) as int,
        ;
        assert(b - a >= 49_391 * p) by (nonlinear_arith)
            requires
                b == 880_000 * p,
                a == 830_609 * p,
        ;
        lemma_mul_inequality(1, 49_391, p);
        assert(a + 64 <= b);
        lemma_div_plus_one(a, 64);
        lemma_div_is_ordered(a + 64, b, 64);
        assert(spec_note_freq_millihz(n) == a / 64);
        assert(spec_note_freq_millihz(n + 1) == b / 64);
    }
}

/// The equal-tempered mapping from note to frequency is strictly
/// increasing: a higher note always sounds at a higher frequency.
pub proof fn lemma_note_to_frequency_monotonic(a: u8, b: u8)
    requires
        a < b,
    ensures
        spec_note_freq_millihz(a as int) < spec_note_freq_millihz(b as int),
    decreases b - a,
{
    lemma_note_frequency_step(a as int);
    if a + 1 < b {
        lemma_note_to_frequency_monotonic((a + 1) as u8, b);
    }
}

} // verus!
