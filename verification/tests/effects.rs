use polysynth::chorus::Chorus;
use polysynth::chorus::ChorusMode;
use polysynth::delay::advance_index;
use polysynth::delay::read_index;
use polysynth::filter::LadderFilter;
use polysynth::reverb::Reverb;
use polysynth::voice_manager::VoiceManager;

#[test]
fn cutoff_clamps_to_half_nyquist() {
    let mut f = LadderFilter::new(44_100);
    // One gigahertz, in millihertz: stored cutoff must be 0.49 × 44100 Hz.
    f.set_cutoff(1_000_000_000_000);
    assert_eq!(f.cutoff_millihz, 21_609_000);
    assert_eq!(f.cutoff_millihz / 1000, (0.49f64 * 44_100.0) as u64);
    f.set_cutoff(0);
    assert_eq!(f.cutoff_millihz, 20_000);
    f.set_cutoff(5_000_000);
    assert_eq!(f.cutoff_millihz, 5_000_000);
}

#[test]
fn filter_clamps_resonance_drive_saturation() {
    let mut f = LadderFilter::new(44_100);
    f.set_resonance(9_000);
    assert_eq!(f.resonance_milli, 4_000);
    f.set_drive(1);
    assert_eq!(f.drive_milli, 100);
    f.set_drive(99_999);
    assert_eq!(f.drive_milli, 10_000);
    f.set_saturation(9_000);
    assert_eq!(f.saturation_milli, 2_000);
}

#[test]
fn transistor_mismatch_is_fixed_and_near_unity() {
    let a = LadderFilter::new(44_100);
    let b = LadderFilter::new(44_100);
    let (m0, m1, m2, m3) = a.mismatch_ppm;
    assert_eq!(a.mismatch_ppm, b.mismatch_ppm);
    for m in [m0, m1, m2, m3] {
        assert!((997_500..=1_002_500).contains(&m));
    }
    // Derived from the seeded generator, not left at unity.
    assert_eq!(m0, 998_926);
    assert_eq!(m1, 1_001_318);
    assert_eq!(m2, 1_002_121);
    assert_eq!(m3, 998_666);
}

#[test]
fn chorus_mode_off_bypasses() {
    let mut c = Chorus::new(44_100);
    c.set_mode(ChorusMode::Off);
    assert_eq!(c.voices.len(), 0);
    assert_eq!(c.wet_dry_milli, 0);
}

#[test]
fn chorus_modes_install_their_voice_sets() {
    let mut c = Chorus::new(44_100);
    c.set_mode(ChorusMode::I);
    assert_eq!(c.voices.len(), 1);
    assert_eq!(c.wet_dry_milli, 500);
    assert_eq!(c.voices[0].rate_left_milli, 513);
    assert_eq!(c.voices[0].rate_right_milli, 515);
    assert_eq!(c.voices[0].depth_micro, 5350);
    c.set_mode(ChorusMode::II);
    assert_eq!(c.voices.len(), 1);
    assert_eq!(c.wet_dry_milli, 800);
    assert_eq!(c.voices[0].rate_left_milli, 863);
    c.set_mode(ChorusMode::III);
    assert_eq!(c.voices.len(), 2);
    assert_eq!(c.wet_dry_milli, 500);
    c.set_mode(ChorusMode::IV);
    assert_eq!(c.voices.len(), 4);
    assert_eq!(c.wet_dry_milli, 600);
    assert_eq!(c.voices[3].rate_left_milli, 1250);
    assert_eq!(c.voices[3].depth_micro, 4000);
}

#[test]
fn chorus_rate_and_depth_detune_within_ten_percent() {
    let mut c = Chorus::new(44_100);
    c.set_rate(2_000);
    assert_eq!(c.rate_milli, 2_000);
    for v in &c.voices {
        assert!((1_800..=2_200).contains(&v.rate_left_milli));
        assert!((1_800..=2_200).contains(&v.rate_right_milli));
    }
    c.set_depth(500);
    assert_eq!(c.depth_milli, 500);
    for v in &c.voices {
        assert!((450_000..=550_000).contains(&v.depth_micro));
    }
}

#[test]
fn chorus_detune_is_deterministic_from_its_seed() {
    // A fresh chorus draws its detune factors from its own seeded
    // generator, so the scaled rates and depths are reproducible.
    let mut c = Chorus::new(44_100);
    c.set_rate(2_000);
    let rates: Vec<(u32, u32)> =
        c.voices.iter().map(|v| (v.rate_left_milli, v.rate_right_milli)).collect();
    assert_eq!(rates, vec![(1_973, 2_034), (1_936, 1_809), (2_009, 2_161)]);
    c.set_depth(500);
    let depths: Vec<u32> = c.voices.iter().map(|v| v.depth_micro).collect();
    assert_eq!(depths, vec![453_497, 451_324, 455_156]);
}

#[test]
fn chorus_clamps() {
    let mut c = Chorus::new(44_100);
    c.set_rate(0);
    assert_eq!(c.rate_milli, 100);
    c.set_rate(1_000_000);
    assert_eq!(c.rate_milli, 10_000);
    c.set_depth(5_000);
    assert_eq!(c.depth_milli, 1_000);
    c.set_feedback(9_999);
    assert_eq!(c.feedback_milli, 990);
    c.set_wet_dry_mix(9_999);
    assert_eq!(c.wet_dry_milli, 1_000);
    c.set_drive(0);
    assert_eq!(c.sat_drive_milli, 1_000);
    c.set_drive(99_999);
    assert_eq!(c.sat_drive_milli, 10_000);
}

#[test]
fn chorus_buffers_span_forty_milliseconds() {
    let c = Chorus::new(44_100);
    assert_eq!(c.size, 1_764);
    let c2 = Chorus::new(48_000);
    assert_eq!(c2.size, 1_920);
}

#[test]
fn reverb_decay_clamps_below_one() {
    let mut r = Reverb::new(44_100);
    r.set_decay(5_000);
    assert_eq!(r.decay_milli, 980);
    r.set_decay(300);
    assert_eq!(r.decay_milli, 300);
}

#[test]
fn reverb_wet_zero_leaves_only_dry() {
    let mut r = Reverb::new(44_100);
    r.set_wet(0);
    assert_eq!(r.get_wet(), 0);
    assert_eq!(r.dry_milli, 1_000);
    r.set_wet(5_000);
    assert_eq!(r.get_wet(), 1_000);
    assert_eq!(r.dry_milli, 0);
}

#[test]
fn reverb_line_lengths_are_detuned_primes() {
    let r = Reverb::new(44_100);
    assert_eq!(r.line_delay_samples(0), 29 * 44_100 / 1000);
    assert_eq!(r.line_delay_samples(1), 37 * 44_100 / 1000);
    assert_eq!(r.line_delay_samples(2), 43 * 44_100 / 1000);
    assert_eq!(r.line_delay_samples(3), 53 * 44_100 / 1000);
}

#[test]
fn reverb_geometry_matches_the_design() {
    let r = Reverb::new(44_100);
    // Early taps at 7, 12.243, 15.4443 and 23.405 milliseconds.
    assert_eq!(r.early_delay_samples(0), (0.007f64 * 44_100.0) as usize);
    assert_eq!(r.early_delay_samples(1), (0.012243f64 * 44_100.0) as usize);
    assert_eq!(r.early_delay_samples(2), (0.0154443f64 * 44_100.0) as usize);
    assert_eq!(r.early_delay_samples(3), (0.023405f64 * 44_100.0) as usize);
    // 0.05 of coupling spread over the three other lines.
    assert_eq!(r.feedback_coupling_micro(), 16_666);
}

#[test]
fn delay_indices_stay_inside_the_buffer() {
    assert_eq!(advance_index(0, 10), 1);
    assert_eq!(advance_index(9, 10), 0);
    assert_eq!(read_index(0, 5, 10), 5);
    assert_eq!(read_index(3, 5, 10), 8);
    assert_eq!(read_index(7, 5, 10), 2);
    // A delay past the buffer is capped at size − 1.
    assert_eq!(read_index(3, 100, 10), 4);
    assert_eq!(read_index(0, 0, 1), 0);
}

#[test]
fn manager_routes_effect_settings() {
    let mut vm = VoiceManager::new(44_100, 2);
    vm.set_reverb_decay(5_000);
    assert_eq!(vm.reverb.decay_milli, 980);
    vm.set_reverb_wet(0);
    assert_eq!(vm.reverb.wet_milli, 0);
    assert_eq!(vm.reverb.dry_milli, 1_000);
    vm.set_chorus_mode(ChorusMode::IV);
    assert_eq!(vm.chorus.voices.len(), 4);
    vm.set_chorus_rate(3_000);
    assert_eq!(vm.chorus.rate_milli, 3_000);
    vm.set_chorus_depth(700);
    assert_eq!(vm.chorus.depth_milli, 700);
}
