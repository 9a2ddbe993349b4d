use polysynth::midi::MidiEvent;
use polysynth::midi::apply_midi_event;
use polysynth::midi::event_from_note_on;
use polysynth::voice_manager::VoiceManager;

#[test]
fn velocity_zero_means_note_off() {
    assert_eq!(
        event_from_note_on(60, 0),
        MidiEvent::NoteOff { note: 60, velocity: 0 }
    );
    assert_eq!(
        event_from_note_on(60, 100),
        MidiEvent::NoteOn { note: 60, velocity: 100 }
    );
}

#[test]
fn events_drive_the_voice_pool() {
    let mut vm = VoiceManager::new(44_100, 8);
    apply_midi_event(&mut vm, MidiEvent::NoteOn { note: 72, velocity: 100 });
    assert_eq!(vm.voices.iter().filter(|v| v.note == Some(72)).count(), 1);
    apply_midi_event(&mut vm, MidiEvent::NoteOff { note: 72, velocity: 0 });
    assert_eq!(vm.voices.iter().filter(|v| v.note == Some(72)).count(), 0);
}

#[test]
fn disguised_note_off_releases_the_note() {
    let mut vm = VoiceManager::new(44_100, 8);
    apply_midi_event(&mut vm, event_from_note_on(64, 90));
    assert_eq!(vm.voices.iter().filter(|v| v.note == Some(64)).count(), 1);
    apply_midi_event(&mut vm, event_from_note_on(64, 0));
    assert_eq!(vm.voices.iter().filter(|v| v.note == Some(64)).count(), 0);
}
