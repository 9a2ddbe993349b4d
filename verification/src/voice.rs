//! One synthesizer voice.
//!
//! A voice couples one oscillator, one envelope and one ladder filter,
//! and remembers which note it is assigned to. A released voice clears
//! its note slot but keeps sounding through the envelope's release tail,
//! so activity is "assigned, or not yet silent".

use crate::envelope::Envelope;
use crate::envelope::EnvelopeStage;
use crate::filter::LadderFilter;
use crate::oscillator::Oscillator;
use crate::oscillator::spec_note_freq_millihz;
use vstd::prelude::*;

verus! {

#[derive(Clone, Copy)]
pub struct Voice {
    pub oscillator: Oscillator,
    pub envelope: Envelope,
    pub filter: LadderFilter,
    pub note: Option<u8>,
}

impl Voice {
    /// Well-formedness: the parts are well-formed and share one sample
    /// rate.
    pub open spec fn wf(self) -> bool {
        &&& self.envelope.wf()
        &&& self.filter.wf()
        &&& self.oscillator.sample_rate == self.envelope.sample_rate
        &&& self.filter.sample_rate == self.envelope.sample_rate
    }

    /// A voice is active while it is assigned a note or its envelope is
    /// still sounding through its release tail.
    pub open spec fn spec_is_active(self) -> bool {
        self.note is Some || !(self.envelope.stage is Idle)
    }

    /// The voice after `trigger(note)`: oscillator tuned to the note,
    /// envelope retriggered, note slot taken; the filter keeps its state.
    pub open spec fn spec_triggered(self, note: u8) -> Voice {
        Voice {
            oscillator: Oscillator {
                frequency_millihz: spec_note_freq_millihz(note as int) as u64,
                ..self.oscillator
            },
            envelope: Envelope {
                stage: EnvelopeStage::Attack,
                samples_in_stage: 0,
                ..self.envelope
            },
            filter: self.filter,
            note: Some(note),
        }
    }

    /// The voice after `release()`: note slot cleared, envelope heading
    /// for silence; everything else keeps its state.
    pub open spec fn spec_released(self) -> Voice {
        Voice {
            oscillator: self.oscillator,
            envelope: Envelope {
                stage: EnvelopeStage::Release,
                samples_in_stage: 0,
                ..self.envelope
            },
            filter: self.filter,
            note: None,
        }
    }

    /// A fresh voice: unassigned, idle envelope, oscillator at A4.
    pub fn new(sample_rate: u32) -> (r: Voice)
        requires
            crate::envelope::MIN_SAMPLE_RATE <= sample_rate <= crate::envelope::MAX_SAMPLE_RATE,
        ensures
            r.wf(),
            r.note is None,
            r.envelope.stage is Idle,
            r.envelope.level == 0,
            r.envelope.sample_rate == sample_rate,
            r.oscillator.frequency_millihz == 440_000,
            !r.spec_is_active(),
    {
        Voice {
            oscillator: Oscillator::new(sample_rate, 440_000),
            envelope: Envelope::new(sample_rate),
            filter: LadderFilter::new(sample_rate),
            note: None,
        }
    }

    /// Assigns the note: tunes the oscillator to its equal-tempered
    /// frequency and retriggers the envelope.
    pub fn trigger(&mut self, note: u8)
        ensures
            *final(self) == old(self).spec_triggered(note),
    {
        let frequency = Oscillator::note_to_frequency(note);
        self.oscillator.set_frequency(frequency);
        self.envelope.note_on();
        self.note = Some(note);
    }

    /// Clears the note slot; the envelope releases on its own.
    pub fn release(&mut self)
        ensures
            *final(self) == old(self).spec_released(),
    {
        self.envelope.note_off();
        self.note = None;
    }

    /// Whether the voice is assigned or still sounding.
    pub fn is_active(&self) -> (b: bool)
        ensures
            b == self.spec_is_active(),
    {
        match self.note {
            Some(_) => true,
            None => !self.envelope.is_idle(),
        }
    }

    /// Whether the voice's parts are well-formed and share a sample rate.
    pub fn is_well_formed(&self) -> (b: bool)
        ensures
            b == self.wf(),
    {
        self.envelope.is_well_formed() && self.filter.is_well_formed()
            && self.oscillator.sample_rate == self.envelope.sample_rate && self.filter.sample_rate
            == self.envelope.sample_rate
    }
}

} // verus!
