use polysynth::oscillator::Oscillator;
use polysynth::oscillator::Waveform;

#[test]
fn note_69_is_440_hz() {
    let f = Oscillator::note_to_frequency(69);
    assert_eq!(f, 440_000);
    let hz = f as f64 / 1000.0;
    assert!((hz - 440.0).abs() < 1e-3);
}

#[test]
fn note_to_frequency_is_monotonic() {
    for n in 0u8..127 {
        assert!(
            Oscillator::note_to_frequency(n) < Oscillator::note_to_frequency(n + 1),
            "not increasing at note {}",
            n
        );
    }
}

#[test]
fn octaves_double_the_frequency() {
    assert_eq!(Oscillator::note_to_frequency(81), 880_000);
    assert_eq!(Oscillator::note_to_frequency(57), 220_000);
    assert_eq!(Oscillator::note_to_frequency(45), 110_000);
}

#[test]
fn middle_c_is_close_to_reference() {
    // MIDI note 60 is 261.626 Hz in equal temperament.
    let hz = Oscillator::note_to_frequency(60) as f64 / 1000.0;
    assert!((hz - 261.626).abs() < 0.01);
}

#[test]
fn oscillator_setters_store_values() {
    let mut osc = Oscillator::new(44_100, 440_000);
    assert_eq!(osc.frequency_millihz, 440_000);
    assert_eq!(osc.volume_milli, 1000);
    assert_eq!(osc.waveform, Waveform::Sawtooth);
    osc.set_frequency(880_000);
    osc.set_volume(500);
    osc.set_waveform(Waveform::Sine);
    assert_eq!(osc.frequency_millihz, 880_000);
    assert_eq!(osc.volume_milli, 500);
    assert_eq!(osc.waveform, Waveform::Sine);
}
