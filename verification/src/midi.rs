//! MIDI note events.
//!
//! Device discovery, connection and raw-byte parsing belong to the
//! surrounding application; the engine receives already-decoded note
//! events. Verified here is how an event drives the voice pool, and the
//! MIDI rule that a note-on with velocity zero is a note-off.

use crate::voice_manager::VoiceManager;
use crate::voice_manager::spec_note_off_rel;
use crate::voice_manager::spec_note_on_rel;
use vstd::prelude::*;

verus! {

/// The note events the engine processes. Note-off velocity is carried
/// but not used.
#[derive(Debug, Clone, Copy, PartialEq, Eq, Structural)]
pub enum MidiEvent {
    NoteOn { note: u8, velocity: u8 },
    NoteOff { note: u8, velocity: u8 },
}

/// Classifies a raw note-on message: by the MIDI rule, velocity zero
/// means note-off.
pub fn event_from_note_on(note: u8, velocity: u8) -> (r: MidiEvent)
    ensures
        velocity > 0 ==> r == (MidiEvent::NoteOn { note, velocity }),
        velocity == 0 ==> r == (MidiEvent::NoteOff { note, velocity: 0 }),
{
    if velocity > 0 {
        MidiEvent::NoteOn { note, velocity }
    } else {
        MidiEvent::NoteOff { note, velocity: 0 }
    }
}

/// Drives the voice pool with one decoded event.
pub fn apply_midi_event(vm: &mut VoiceManager, event: MidiEvent)
    requires
        old(vm).wf(),
    ensures
        final(vm).wf(),
        event matches MidiEvent::NoteOn { note, .. } ==> spec_note_on_rel(
            *old(vm),
            *final(vm),
            note,
        ),
        event matches MidiEvent::NoteOff { note, .. } ==> spec_note_off_rel(
            *old(vm),
            *final(vm),
            note,
        ),
{
    match event {
        MidiEvent::NoteOn { note, velocity: _ } => vm.note_on(note),
        MidiEvent::NoteOff { note, velocity: _ } => vm.note_off(note),
    }
}

} // verus!
