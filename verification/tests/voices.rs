use polysynth::envelope::EnvelopeStage;
use polysynth::oscillator::Oscillator;
use polysynth::voice::Voice;
use polysynth::voice_manager::VoiceManager;

#[test]
fn voice_trigger_release_lifecycle() {
    let mut v = Voice::new(44_100);
    assert!(!v.is_active());
    v.trigger(60);
    assert_eq!(v.note, Some(60));
    assert_eq!(v.oscillator.frequency_millihz, Oscillator::note_to_frequency(60));
    assert!(v.is_active());
    v.release();
    assert_eq!(v.note, None);
    // The release tail keeps the voice active until the envelope is idle.
    assert!(v.is_active());
    let mut guard: u32 = 0;
    while !v.envelope.is_idle() {
        v.envelope.next_sample();
        guard += 1;
        assert!(guard < 10_000_000);
    }
    assert!(!v.is_active());
}

#[test]
fn ninth_note_steals_exactly_one_voice() {
    let mut vm = VoiceManager::new(44_100, 8);
    for note in 60u8..68 {
        vm.note_on(note);
    }
    assert_eq!(vm.voices.len(), 8);
    for note in 60u8..68 {
        assert_eq!(
            vm.voices.iter().filter(|v| v.note == Some(note)).count(),
            1,
            "note {} not assigned once",
            note
        );
    }
    // Ninth distinct note on a full pool: does not panic, keeps the
    // pool size, assigns the new note to exactly one voice, and steals
    // exactly one earlier note (the lowest, by the stealing order).
    vm.note_on(68);
    assert_eq!(vm.voices.len(), 8);
    assert_eq!(vm.voices.iter().filter(|v| v.note == Some(68)).count(), 1);
    let mut kept = 0;
    for note in 60u8..68 {
        kept += vm.voices.iter().filter(|v| v.note == Some(note)).count();
    }
    assert_eq!(kept, 7, "exactly one earlier note must have been stolen");
    assert_eq!(vm.voices.iter().filter(|v| v.note == Some(60)).count(), 0);
}

#[test]
fn note_off_releases_only_matching_voices() {
    let mut vm = VoiceManager::new(44_100, 8);
    vm.note_on(60);
    vm.note_on(64);
    vm.note_on(67);
    vm.note_off(64);
    assert_eq!(vm.voices.iter().filter(|v| v.note == Some(64)).count(), 0);
    assert_eq!(vm.voices.iter().filter(|v| v.note == Some(60)).count(), 1);
    assert_eq!(vm.voices.iter().filter(|v| v.note == Some(67)).count(), 1);
    // The released voice keeps sounding through its release tail.
    let released = vm
        .voices
        .iter()
        .find(|v| v.note.is_none() && v.envelope.stage == EnvelopeStage::Release);
    assert!(released.is_some());
}

#[test]
fn retriggering_a_note_never_doubles_it() {
    let mut vm = VoiceManager::new(44_100, 8);
    vm.note_on(60);
    vm.note_on(60);
    assert_eq!(vm.voices.iter().filter(|v| v.note == Some(60)).count(), 1);
}

#[test]
fn empty_pool_ignores_events() {
    let mut vm = VoiceManager::new(44_100, 0);
    vm.note_on(60);
    vm.note_off(60);
    assert_eq!(vm.voices.len(), 0);
}

#[test]
fn filter_settings_broadcast_to_every_voice() {
    let mut vm = VoiceManager::new(44_100, 4);
    vm.set_filter_cutoff(1_000_000_000_000);
    vm.set_filter_resonance(9_999);
    vm.set_filter_drive(5);
    vm.set_filter_saturation(9_999);
    for v in &vm.voices {
        assert_eq!(v.filter.cutoff_millihz, 21_609_000);
        assert_eq!(v.filter.resonance_milli, 4_000);
        assert_eq!(v.filter.drive_milli, 100);
        assert_eq!(v.filter.saturation_milli, 2_000);
    }
}

#[test]
fn manager_stays_well_formed() {
    let mut vm = VoiceManager::new(48_000, 8);
    assert!(vm.is_well_formed());
    for note in 40u8..80 {
        vm.note_on(note);
    }
    vm.set_filter_cutoff(123);
    vm.set_reverb_decay(5_000);
    vm.set_chorus_rate(2_000);
    assert!(vm.is_well_formed());
}
