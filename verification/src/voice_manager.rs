//! Polyphonic voice pool.
//!
//! The manager owns a fixed pool of voices, the shared reverb and chorus,
//! and implements note allocation: a note-on first releases any voice
//! already holding the note (retrigger semantics), then takes the first
//! inactive voice, or — with every voice busy — steals the voice whose
//! assigned note orders lowest (unassigned release tails order before
//! every note, and the first of equals wins, matching a minimum scan).
//! Note value is only a stand-in for age here: a true oldest-first
//! policy would track a monotonic trigger counter per voice.
//! The per-sample mixing of voice outputs through the effects is
//! floating-point work in the sample path; everything that decides which
//! voice sounds which note is verified here.

use crate::chorus::Chorus;
use crate::reverb::Reverb;
use crate::voice::Voice;
use vstd::prelude::*;

verus! {

pub struct VoiceManager {
    pub voices: Vec<Voice>,
    pub reverb: Reverb,
    pub chorus: Chorus,
    pub max_voices: usize,
}

/// The voice, released if it holds note `n`; otherwise untouched.
pub open spec fn spec_note_off_one(v: Voice, n: u8) -> Voice {
    if v.note == Some(n) {
        v.spec_released()
    } else {
        v
    }
}

/// The pool with every voice holding `n` released.
pub open spec fn spec_release_matching(vs: Seq<Voice>, n: u8) -> Seq<Voice> {
    Seq::new(vs.len(), |i: int| spec_note_off_one(vs[i], n))
}

/// The order voice stealing uses: an unassigned voice (release tail)
/// orders before every note, then notes order by number.
pub open spec fn spec_note_key(o: Option<u8>) -> int {
    match o {
        None => -1,
        Some(k) => k as int,
    }
}

/// Some voice in the pool is inactive.
pub open spec fn spec_has_inactive(vs: Seq<Voice>) -> bool {
    exists|k: int| 0 <= k < vs.len() && !(#[trigger] vs[k]).spec_is_active()
}

/// `t` is the first inactive slot of the pool.
pub open spec fn spec_first_inactive_at(vs: Seq<Voice>, t: int) -> bool {
    &&& 0 <= t < vs.len()
    &&& !vs[t].spec_is_active()
    &&& forall|k: int| 0 <= k < t ==> (#[trigger] vs[k]).spec_is_active()
}

/// `t` is the slot a full pool steals: the first voice of least note
/// key.
pub open spec fn spec_steal_at(vs: Seq<Voice>, t: int) -> bool {
    &&& 0 <= t < vs.len()
    &&& forall|k: int|
        0 <= k < vs.len() ==> spec_note_key(vs[t].note) <= spec_note_key(
            (#[trigger] vs[k]).note,
        )
    &&& forall|k: int| 0 <= k < t ==> spec_note_key((#[trigger] vs[k]).note) > spec_note_key(vs[t].note)
}

/// `t` is the slot allocation picks from pool `vs`.
pub open spec fn spec_alloc_at(vs: Seq<Voice>, t: int) -> bool {
    if spec_has_inactive(vs) {
        spec_first_inactive_at(vs, t)
    } else {
        spec_steal_at(vs, t)
    }
}

/// What `note_off(n)` does: releases exactly the voices holding `n` and
/// touches nothing else.
pub open spec fn spec_note_off_rel(pre: VoiceManager, post: VoiceManager, n: u8) -> bool {
    &&& post.voices@.len() == pre.voices@.len()
    &&& forall|i: int|
        0 <= i < pre.voices@.len() ==> post.voices@[i] == spec_note_off_one(
            #[trigger] pre.voices@[i],
            n,
        )
    &&& post.reverb == pre.reverb
    &&& post.chorus == pre.chorus
    &&& post.max_voices == pre.max_voices
}

/// What `note_on(n)` does: after releasing any holder of `n`, exactly
/// one slot — the allocation choice — is retriggered with `n`.
pub open spec fn spec_note_on_rel(pre: VoiceManager, post: VoiceManager, n: u8) -> bool {
    let mid = spec_release_matching(pre.voices@, n);
    &&& post.voices@.len() == pre.voices@.len()
    &&& if pre.voices@.len() == 0 {
        post.voices@ == mid
    } else {
        exists|t: int|
            #[trigger] spec_alloc_at(mid, t) && post.voices@ == mid.update(
                t,
                mid[t].spec_triggered(n),
            )
    }
    &&& post.reverb == pre.reverb
    &&& post.chorus == pre.chorus
    &&& post.max_voices == pre.max_voices
}

impl VoiceManager {
    /// Well-formedness: the pool holds exactly `max_voices` well-formed
    /// voices, and the effects are well-formed.
    pub open spec fn wf(self) -> bool {
        &&& self.voices@.len() == self.max_voices
        &&& forall|i: int| 0 <= i < self.voices@.len() ==> (#[trigger] self.voices@[i]).wf()
        &&& self.reverb.wf()
        &&& self.chorus.wf()
    }

    /// A fresh pool of `num_voices` idle voices with shared effects.
    pub fn new(sample_rate: u32, num_voices: usize) -> (r: VoiceManager)
        requires
            crate::envelope::MIN_SAMPLE_RATE <= sample_rate <= crate::envelope::MAX_SAMPLE_RATE,
        ensures
            r.wf(),
            r.voices@.len() == num_voices,
            r.max_voices == num_voices,
            forall|i: int|
                0 <= i < num_voices ==> !(#[trigger] r.voices@[i]).spec_is_active()
                    && r.voices@[i].note is None && r.voices@[i].envelope.stage is Idle
                    && r.voices@[i].envelope.level == 0 && r.voices@[i].envelope.sample_rate
                    == sample_rate && r.voices@[i].oscillator.frequency_millihz == 440_000,
            r.reverb.wet_milli == 700,
            r.reverb.decay_milli == 100,
            r.chorus.mode is Off,
    {
        let mut voices: Vec<Voice> = Vec::new();
        let mut i: usize = 0;
        while i < num_voices
            invariant
                i <= num_voices,
                voices@.len() == i,
                crate::envelope::MIN_SAMPLE_RATE <= sample_rate
                    <= crate::envelope::MAX_SAMPLE_RATE,
                forall|k: int|
                    0 <= k < i ==> (#[trigger] voices@[k]).wf() && !voices@[k].spec_is_active()
                        && voices@[k].note is None && voices@[k].envelope.stage is Idle
                        && voices@[k].envelope.level == 0 && voices@[k].envelope.sample_rate
                        == sample_rate && voices@[k].oscillator.frequency_millihz == 440_000,
            decreases num_voices - i,
        {
            voices.push(Voice::new(sample_rate));
            i = i + 1;
        }
        VoiceManager {
            voices,
            reverb: Reverb::new(sample_rate),
            chorus: Chorus::new(sample_rate),
            max_voices: num_voices,
        }
    }

    /// Releases every voice whose assigned note equals `note`; voices
    /// assigned to other notes are untouched.
    pub fn note_off(&mut self, note: u8)
        requires
            old(self).wf(),
        ensures
            final(self).wf(),
            spec_note_off_rel(*old(self), *final(self), note),
    {
        let n = self.voices.len();
        let mut i: usize = 0;
        while i < n
            invariant
                old(self).wf(),
                i <= n,
                self.voices@.len() == n == old(self).voices@.len(),
                forall|k: int|
                    0 <= k < i ==> self.voices@[k] == spec_note_off_one(
                        #[trigger] old(self).voices@[k],
                        note,
                    ),
                forall|k: int| i <= k < n ==> self.voices@[k] == #[trigger] old(self).voices@[k],
                self.reverb == old(self).reverb,
                self.chorus == old(self).chorus,
                self.max_voices == old(self).max_voices,
            decreases n - i,
        {
            let matches_note: bool = match self.voices[i].note {
                Some(m) => m == note,
                None => false,
            };
            if matches_note {
                let mut v: Voice = self.voices[i];
                v.release();
                self.voices.set(i, v);
            }
            i = i + 1;
        }
        proof {
            assert forall|k: int| 0 <= k < n implies final(self).voices@[k].wf() by {
                assert(old(self).voices@[k].wf());
            }
        }
    }

    /// Assigns `note` to a voice: releases any current holder, then
    /// triggers the first inactive voice, or steals the least-keyed one
    /// if the whole pool is busy. The pool size never changes.
    pub fn note_on(&mut self, note: u8)
        requires
            old(self).wf(),
        ensures
            final(self).wf(),
            spec_note_on_rel(*old(self), *final(self), note),
    {
        self.note_off(note);
        proof {
            assert(self.voices@ =~= spec_release_matching(old(self).voices@, note));
        }
        let ghost mid = self.voices@;
        let n = self.voices.len();
        if n == 0 {
            return ;
        }
        let mut found: bool = false;
        let mut t: usize = 0;
        let mut i: usize = 0;
        while i < n
            invariant
                i <= n,
                n == self.voices@.len(),
                self.voices@ == mid,
                found ==> spec_first_inactive_at(mid, t as int),
                !found ==> forall|k: int| 0 <= k < i ==> (#[trigger] mid[k]).spec_is_active(),
            decreases n - i,
        {
            if !found {
                let active = self.voices[i].is_active();
                if !active {
                    found = true;
                    t = i;
                }
            }
            i = i + 1;
        }
        if !found {
            proof {
                assert(!spec_has_inactive(mid));
            }
            let mut best: usize = 0;
            let mut j: usize = 1;
            while j < n
                invariant
                    1 <= j <= n,
                    best < j,
                    n == self.voices@.len(),
                    self.voices@ == mid,
                    forall|k: int|
                        0 <= k < j ==> spec_note_key(mid[best as int].note) <= spec_note_key(
                            (#[trigger] mid[k]).note,
                        ),
                    forall|k: int|
                        0 <= k < best ==> spec_note_key((#[trigger] mid[k]).note) > spec_note_key(
                            mid[best as int].note,
                        ),
                decreases n - j,
            {
                if note_key(&self.voices[j]) < note_key(&self.voices[best]) {
                    best = j;
                }
                j = j + 1;
            }
            t = best;
            proof {
                assert(spec_steal_at(mid, t as int));
                assert(spec_alloc_at(mid, t as int));
            }
        } else {
            proof {
                assert(spec_has_inactive(mid));
                assert(spec_alloc_at(mid, t as int));
            }
        }
        let mut v: Voice = self.voices[t];
        v.trigger(note);
        self.voices.set(t, v);
        proof {
            assert(self.voices@ =~= mid.update(t as int, mid[t as int].spec_triggered(note)));
            assert forall|k: int| 0 <= k < n implies final(self).voices@[k].wf() by {
                assert(old(self).voices@[k].wf());
            }
        }
    }

    /// Broadcasts a cutoff change to every voice's filter, each clamped
    /// to its own Nyquist-safe range.
    pub fn set_filter_cutoff(&mut self, cutoff_millihz: u64)
        requires
            old(self).wf(),
        ensures
            final(self).wf(),
            final(self).voices@.len() == old(self).voices@.len(),
            forall|i: int|
                0 <= i < old(self).voices@.len() ==> final(self).voices@[i] == spec_cutoff_set(
                    #[trigger] old(self).voices@[i],
                    cutoff_millihz,
                ),
            final(self).reverb == old(self).reverb,
            final(self).chorus == old(self).chorus,
            final(self).max_voices == old(self).max_voices,
    {
        let n = self.voices.len();
        let mut i: usize = 0;
        while i < n
            invariant
                old(self).wf(),
                i <= n,
                self.voices@.len() == n == old(self).voices@.len(),
                forall|k: int|
                    0 <= k < i ==> self.voices@[k] == spec_cutoff_set(
                        #[trigger] old(self).voices@[k],
                        cutoff_millihz,
                    ),
                forall|k: int| i <= k < n ==> self.voices@[k] == #[trigger] old(self).voices@[k],
                self.reverb == old(self).reverb,
                self.chorus == old(self).chorus,
                self.max_voices == old(self).max_voices,
            decreases n - i,
        {
            let mut v: Voice = self.voices[i];
            proof {
                assert(old(self).voices@[i as int].wf());
            }
            v.filter.set_cutoff(cutoff_millihz);
            self.voices.set(i, v);
            i = i + 1;
        }
        proof {
            assert forall|k: int| 0 <= k < n implies final(self).voices@[k].wf() by {
                assert(old(self).voices@[k].wf());
            }
        }
    }

    /// Broadcasts a resonance change to every voice's filter.
    pub fn set_filter_resonance(&mut self, resonance_milli: u32)
        requires
            old(self).wf(),
        ensures
            final(self).wf(),
            final(self).voices@.len() == old(self).voices@.len(),
            forall|i: int|
                0 <= i < old(self).voices@.len() ==> final(self).voices@[i] == spec_resonance_set(
                    #[trigger] old(self).voices@[i],
                    resonance_milli,
                ),
            final(self).reverb == old(self).reverb,
            final(self).chorus == old(self).chorus,
            final(self).max_voices == old(self).max_voices,
    {
        let n = self.voices.len();
        let mut i: usize = 0;
        while i < n
            invariant
                old(self).wf(),
                i <= n,
                self.voices@.len() == n == old(self).voices@.len(),
                forall|k: int|
                    0 <= k < i ==> self.voices@[k] == spec_resonance_set(
                        #[trigger] old(self).voices@[k],
                        resonance_milli,
                    ),
                forall|k: int| i <= k < n ==> self.voices@[k] == #[trigger] old(self).voices@[k],
                self.reverb == old(self).reverb,
                self.chorus == old(self).chorus,
                self.max_voices == old(self).max_voices,
            decreases n - i,
        {
            let mut v: Voice = self.voices[i];
            v.filter.set_resonance(resonance_milli);
            self.voices.set(i, v);
            i = i + 1;
        }
        proof {
            assert forall|k: int| 0 <= k < n implies final(self).voices@[k].wf() by {
                assert(old(self).voices@[k].wf());
            }
        }
    }

    /// Broadcasts a drive change to every voice's filter.
    pub fn set_filter_drive(&mut self, drive_milli: u32)
        requires
            old(self).wf(),
        ensures
            final(self).wf(),
            final(self).voices@.len() == old(self).voices@.len(),
            forall|i: int|
                0 <= i < old(self).voices@.len() ==> final(self).voices@[i] == spec_drive_set(
                    #[trigger] old(self).voices@[i],
                    drive_milli,
                ),
            final(self).reverb == old(self).reverb,
            final(self).chorus == old(self).chorus,
            final(self).max_voices == old(self).max_voices,
    {
        let n = self.voices.len();
        let mut i: usize = 0;
        while i < n
            invariant
                old(self).wf(),
                i <= n,
                self.voices@.len() == n == old(self).voices@.len(),
                forall|k: int|
                    0 <= k < i ==> self.voices@[k] == spec_drive_set(
                        #[trigger] old(self).voices@[k],
                        drive_milli,
                    ),
                forall|k: int| i <= k < n ==> self.voices@[k] == #[trigger] old(self).voices@[k],
                self.reverb == old(self).reverb,
                self.chorus == old(self).chorus,
                self.max_voices == old(self).max_voices,
            decreases n - i,
        {
            let mut v: Voice = self.voices[i];
            v.filter.set_drive(drive_milli);
            self.voices.set(i, v);
            i = i + 1;
        }
        proof {
            assert forall|k: int| 0 <= k < n implies final(self).voices@[k].wf() by {
                assert(old(self).voices@[k].wf());
            }
        }
    }

    /// Broadcasts a saturation change to every voice's filter.
    pub fn set_filter_saturation(&mut self, saturation_milli: u32)
        requires
            old(self).wf(),
        ensures
            final(self).wf(),
            final(self).voices@.len() == old(self).voices@.len(),
            forall|i: int|
                0 <= i < old(self).voices@.len() ==> final(self).voices@[i] == spec_saturation_set(
                    #[trigger] old(self).voices@[i],
                    saturation_milli,
                ),
            final(self).reverb == old(self).reverb,
            final(self).chorus == old(self).chorus,
            final(self).max_voices == old(self).max_voices,
    {
        let n = self.voices.len();
        let mut i: usize = 0;
        while i < n
            invariant
                old(self).wf(),
                i <= n,
                self.voices@.len() == n == old(self).voices@.len(),
                forall|k: int|
                    0 <= k < i ==> self.voices@[k] == spec_saturation_set(
                        #[trigger] old(self).voices@[k],
                        saturation_milli,
                    ),
                forall|k: int| i <= k < n ==> self.voices@[k] == #[trigger] old(self).voices@[k],
                self.reverb == old(self).reverb,
                self.chorus == old(self).chorus,
                self.max_voices == old(self).max_voices,
            decreases n - i,
        {
            let mut v: Voice = self.voices[i];
            v.filter.set_saturation(saturation_milli);
            self.voices.set(i, v);
            i = i + 1;
        }
        proof {
            assert forall|k: int| 0 <= k < n implies final(self).voices@[k].wf() by {
                assert(old(self).voices@[k].wf());
            }
        }
    }

    /// Sets the reverb decay, clamped to [0, 0.98].
    pub fn set_reverb_decay(&mut self, decay_milli: u32)
        ensures
            final(self).reverb.decay_milli == if decay_milli
                > crate::reverb::MAX_REVERB_DECAY_MILLI {
                crate::reverb::MAX_REVERB_DECAY_MILLI as int
            } else {
                decay_milli as int
            },
            *final(self) == (VoiceManager {
                reverb: Reverb { decay_milli: final(self).reverb.decay_milli, ..old(self).reverb },
                ..*old(self)
            }),
    {
        let capped: u32 = if decay_milli > 990 {
            990
        } else {
            decay_milli
        };
        self.reverb.set_decay(capped);
    }

    /// Sets the reverb wet fraction, clamped to [0, 1].
    pub fn set_reverb_wet(&mut self, wet_milli: u32)
        ensures
            final(self).reverb.wet_milli == if wet_milli > 1000 {
                1000int
            } else {
                wet_milli as int
            },
            final(self).reverb.dry_milli == 1000 - final(self).reverb.wet_milli,
            *final(self) == (VoiceManager {
                reverb: Reverb {
                    wet_milli: final(self).reverb.wet_milli,
                    dry_milli: final(self).reverb.dry_milli,
                    ..old(self).reverb
                },
                ..*old(self)
            }),
    {
        let capped: u32 = if wet_milli > 1000 {
            1000
        } else {
            wet_milli
        };
        self.reverb.set_wet(capped);
    }

    /// Selects the chorus mode.
    pub fn set_chorus_mode(&mut self, mode: crate::chorus::ChorusMode)
        requires
            old(self).wf(),
        ensures
            final(self).wf(),
            final(self).chorus.mode == mode,
            final(self).chorus.wet_dry_milli == crate::chorus::spec_mode_wet_dry(mode),
            final(self).chorus.voices@ == crate::chorus::spec_mode_voices(mode),
            final(self).voices@ == old(self).voices@,
            final(self).reverb == old(self).reverb,
            final(self).max_voices == old(self).max_voices,
    {
        self.chorus.set_mode(mode);
    }

    /// Sets the chorus rate, clamped, re-detuning each chorus voice.
    pub fn set_chorus_rate(&mut self, rate_milli: u32)
        requires
            old(self).wf(),
        ensures
            final(self).wf(),
            final(self).chorus.rate_milli == crate::chorus::spec_clamp_rate(rate_milli),
            forall|i: int|
                0 <= i < final(self).chorus.voices@.len() ==> crate::chorus::spec_within_ten_percent(
                    (#[trigger] final(self).chorus.voices@[i]).rate_left_milli,
                    crate::chorus::spec_clamp_rate(rate_milli) as int,
                ) && crate::chorus::spec_within_ten_percent(
                    final(self).chorus.voices@[i].rate_right_milli,
                    crate::chorus::spec_clamp_rate(rate_milli) as int,
                ),
            final(self).voices@ == old(self).voices@,
            final(self).reverb == old(self).reverb,
            final(self).max_voices == old(self).max_voices,
    {
        self.chorus.set_rate(rate_milli);
    }

    /// Sets the chorus depth, clamped, re-detuning each chorus voice.
    pub fn set_chorus_depth(&mut self, depth_milli: u32)
        requires
            old(self).wf(),
        ensures
            final(self).wf(),
            final(self).chorus.depth_milli == crate::chorus::spec_clamp_depth(depth_milli),
            forall|i: int|
                0 <= i < final(self).chorus.voices@.len() ==> crate::chorus::spec_within_ten_percent(
                    (#[trigger] final(self).chorus.voices@[i]).depth_micro,
                    crate::chorus::spec_clamp_depth(depth_milli) * 1000,
                ),
            final(self).voices@ == old(self).voices@,
            final(self).reverb == old(self).reverb,
            final(self).max_voices == old(self).max_voices,
    {
        self.chorus.set_depth(depth_milli);
    }

    /// Whether the pool and effects are well-formed.
    pub fn is_well_formed(&self) -> (b: bool)
        ensures
            b == self.wf(),
    {
        let n = self.voices.len();
        if n != self.max_voices {
            return false;
        }
        let mut i: usize = 0;
        let mut all_wf: bool = true;
        while i < n
            invariant
                i <= n,
                n == self.voices@.len(),
                all_wf == (forall|k: int| 0 <= k < i ==> (#[trigger] self.voices@[k]).wf()),
            decreases n - i,
        {
            if !self.voices[i].is_well_formed() {
                all_wf = false;
            }
            i = i + 1;
        }
        all_wf && self.reverb_is_well_formed() && self.chorus_is_well_formed()
    }

    /// Whether the reverb parameters are in range.
    fn reverb_is_well_formed(&self) -> (b: bool)
        ensures
            b == self.reverb.wf(),
    {
        crate::envelope::MIN_SAMPLE_RATE <= self.reverb.sample_rate && self.reverb.sample_rate
            <= crate::envelope::MAX_SAMPLE_RATE && self.reverb.decay_milli
            <= crate::reverb::MAX_REVERB_DECAY_MILLI && self.reverb.damping_milli <= 1000
            && self.reverb.wet_milli <= 1000 && self.reverb.dry_milli == 1000
            - self.reverb.wet_milli
    }

    /// Whether the chorus parameters are in range.
    fn chorus_is_well_formed(&self) -> (b: bool)
        ensures
            b == self.chorus.wf(),
    {
        let c = &self.chorus;
        let scalars_ok: bool = crate::envelope::MIN_SAMPLE_RATE <= c.sample_rate && c.sample_rate
            <= crate::envelope::MAX_SAMPLE_RATE && c.size == ((c.sample_rate as usize)
            * (crate::chorus::CHORUS_MAX_DELAY_MS as usize)) / 1000 && c.feedback_milli
            <= crate::chorus::MAX_CHORUS_FEEDBACK_MILLI && crate::chorus::MIN_CHORUS_RATE_MILLI
            <= c.rate_milli && c.rate_milli <= crate::chorus::MAX_CHORUS_RATE_MILLI
            && c.depth_milli <= crate::chorus::MAX_CHORUS_DEPTH_MILLI && c.wet_dry_milli <= 1000
            && crate::chorus::MIN_SAT_DRIVE_MILLI <= c.sat_drive_milli && c.sat_drive_milli
            <= crate::chorus::MAX_SAT_DRIVE_MILLI && c.voices.len() <= 4;
        let n = c.voices.len();
        let mut i: usize = 0;
        let mut voices_ok: bool = true;
        while i < n
            invariant
                i <= n,
                n == self.chorus.voices@.len(),
                voices_ok == (forall|k: int|
                    0 <= k < i ==> (#[trigger] self.chorus.voices@[k]).rate_left_milli <= 11_000
                        && self.chorus.voices@[k].rate_right_milli <= 11_000
                        && self.chorus.voices@[k].depth_micro <= 1_100_000),
            decreases n - i,
        {
            let v = self.chorus.voices[i];
            if !(v.rate_left_milli <= 11_000 && v.rate_right_milli <= 11_000 && v.depth_micro
                <= 1_100_000) {
                voices_ok = false;
            }
            i = i + 1;
        }
        scalars_ok && voices_ok
    }
}

/// The voice with its filter cutoff set (and clamped to the voice's own
/// Nyquist-safe range); everything else untouched.
pub open spec fn spec_cutoff_set(v: Voice, cutoff_millihz: u64) -> Voice {
    Voice {
        filter: crate::filter::LadderFilter {
            cutoff_millihz: crate::filter::spec_clamp_cutoff(
                cutoff_millihz,
                v.filter.sample_rate,
            ) as u64,
            ..v.filter
        },
        ..v
    }
}

/// The voice with its filter resonance set and clamped.
pub open spec fn spec_resonance_set(v: Voice, resonance_milli: u32) -> Voice {
    Voice {
        filter: crate::filter::LadderFilter {
            resonance_milli: if resonance_milli > crate::filter::MAX_RESONANCE_MILLI {
                crate::filter::MAX_RESONANCE_MILLI
            } else {
                resonance_milli
            },
            ..v.filter
        },
        ..v
    }
}

/// The voice with its filter drive set and clamped.
pub open spec fn spec_drive_set(v: Voice, drive_milli: u32) -> Voice {
    Voice {
        filter: crate::filter::LadderFilter {
            drive_milli: if drive_milli < crate::filter::MIN_DRIVE_MILLI {
                crate::filter::MIN_DRIVE_MILLI
            } else if drive_milli > crate::filter::MAX_DRIVE_MILLI {
                crate::filter::MAX_DRIVE_MILLI
            } else {
                drive_milli
            },
            ..v.filter
        },
        ..v
    }
}

/// The voice with its filter saturation set and clamped.
pub open spec fn spec_saturation_set(v: Voice, saturation_milli: u32) -> Voice {
    Voice {
        filter: crate::filter::LadderFilter {
            saturation_milli: if saturation_milli > crate::filter::MAX_SATURATION_MILLI {
                crate::filter::MAX_SATURATION_MILLI
            } else {
                saturation_milli
            },
            ..v.filter
        },
        ..v
    }
}

/// With the pool full — every voice active and none holding the new
/// note — a note-on steals exactly one voice: one slot is retriggered
/// with the new note and every other voice is untouched, and the pool
/// size does not change.
pub proof fn lemma_full_pool_steals_exactly_one(pre: VoiceManager, post: VoiceManager, n: u8)
    requires
        spec_note_on_rel(pre, post, n),
        pre.voices@.len() > 0,
        forall|i: int| 0 <= i < pre.voices@.len() ==> (#[trigger] pre.voices@[i]).spec_is_active(),
        forall|i: int| 0 <= i < pre.voices@.len() ==> (#[trigger] pre.voices@[i]).note != Some(n),
    ensures
        post.voices@.len() == pre.voices@.len(),
        exists|t: int|
            0 <= t < pre.voices@.len() && #[trigger] post.voices@[t] == pre.voices@[
                t
            ].spec_triggered(n) && post.voices@[t].note == Some(n) && forall|k: int|
                0 <= k < pre.voices@.len() && k != t ==> post.voices@[k] == pre.voices@[k],
{
    let len = pre.voices@.len() as int;
    let mid = spec_release_matching(pre.voices@, n);
    assert forall|i: int| 0 <= i < len implies mid[i] == pre.voices@[i] by {
        assert(pre.voices@[i].note != Some(n));
    }
    assert(mid =~= pre.voices@);
    let t = choose|t: int|
        #[trigger] spec_alloc_at(mid, t) && post.voices@ == mid.update(t, mid[t].spec_triggered(n));
    assert(spec_alloc_at(mid, t));
    assert(0 <= t < len);
    assert(post.voices@[t] == pre.voices@[t].spec_triggered(n));
    assert(forall|k: int| 0 <= k < len && k != t ==> post.voices@[k] == pre.voices@[k]);
}

/// The stealing order, as executable code.
fn note_key(v: &Voice) -> (k: i32)
    ensures
        k == spec_note_key(v.note),
{
    match v.note {
        Some(m) => m as i32,
        None => -1,
    }
}

} // verus!
