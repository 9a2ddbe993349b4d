use polysynth::envelope::Envelope;
use polysynth::envelope::EnvelopeStage;
use polysynth::envelope::LEVEL_ONE;
use polysynth::envelope::RELEASE_FLOOR;

#[test]
fn fresh_envelope_is_silent() {
    let mut env = Envelope::new(44_100);
    assert_eq!(env.stage, EnvelopeStage::Idle);
    for _ in 0..100 {
        assert_eq!(env.next_sample(), 0);
    }
    assert!(env.is_idle());
}

#[test]
fn attack_strictly_increases_until_full_scale() {
    let mut env = Envelope::new(48_000);
    env.note_on();
    assert_eq!(env.stage, EnvelopeStage::Attack);
    let mut prev: u32 = env.level;
    while env.stage == EnvelopeStage::Attack {
        let level = env.next_sample();
        if env.stage == EnvelopeStage::Attack {
            assert!(level > prev, "attack level did not increase: {} -> {}", prev, level);
            assert!(level < LEVEL_ONE);
        } else {
            assert_eq!(level, LEVEL_ONE);
            assert_eq!(env.stage, EnvelopeStage::Decay);
        }
        prev = level;
    }
}

#[test]
fn sustain_holds_the_configured_level() {
    let mut env = Envelope::new(48_000);
    env.note_on();
    let mut guard: u32 = 0;
    while env.stage != EnvelopeStage::Sustain {
        env.next_sample();
        guard += 1;
        assert!(guard < 1_000_000, "never reached sustain");
    }
    for _ in 0..100 {
        assert_eq!(env.next_sample(), 700_000_000);
        assert_eq!(env.stage, EnvelopeStage::Sustain);
    }
}

#[test]
fn note_off_moves_to_release_from_any_stage() {
    let mut env = Envelope::new(44_100);
    env.note_on();
    env.note_off();
    assert_eq!(env.stage, EnvelopeStage::Release);

    let mut env2 = Envelope::new(44_100);
    env2.note_off();
    assert_eq!(env2.stage, EnvelopeStage::Release);
}

#[test]
fn release_strictly_decreases_and_snaps_below_floor() {
    let mut env = Envelope::new(48_000);
    env.note_on();
    let mut guard: u32 = 0;
    while env.stage != EnvelopeStage::Sustain {
        env.next_sample();
        guard += 1;
        assert!(guard < 1_000_000);
    }
    env.note_off();
    let mut prev = env.level;
    loop {
        let level = env.next_sample();
        if env.stage == EnvelopeStage::Idle {
            // The stage turns idle exactly when the level would fall
            // below the floor, and the level snaps to zero.
            assert_eq!(level, 0);
            break;
        }
        assert!(level < prev, "release level did not decrease");
        assert!(level >= RELEASE_FLOOR);
        prev = level;
        guard += 1;
        assert!(guard < 10_000_000);
    }
    for _ in 0..10 {
        assert_eq!(env.next_sample(), 0);
    }
}

#[test]
fn retrigger_keeps_the_current_level() {
    let mut env = Envelope::new(48_000);
    env.note_on();
    for _ in 0..1000 {
        env.next_sample();
    }
    let level = env.level;
    assert!(level > 0);
    env.note_on();
    assert_eq!(env.level, level);
    assert_eq!(env.stage, EnvelopeStage::Attack);
    assert_eq!(env.samples_in_stage, 0);
}

#[test]
fn adsr_timeline_at_48_khz() {
    // 0.1 s attack, 0.1 s decay, sustain 0.7, 0.2 s release at 48 kHz.
    let mut env = Envelope::new(48_000);
    env.set_attack(100_000);
    env.set_decay(100_000);
    env.set_sustain(700_000_000);
    env.set_release(200_000);
    env.note_on();

    let mut samples: u32 = 0;
    while env.stage == EnvelopeStage::Attack {
        env.next_sample();
        samples += 1;
        assert!(samples < 100_000);
    }
    // Full scale within ~4800 ± 1 samples.
    assert!((4799..=4801).contains(&samples), "attack took {} samples", samples);

    let mut decay_samples: u32 = 0;
    while env.stage == EnvelopeStage::Decay {
        env.next_sample();
        decay_samples += 1;
        assert!(decay_samples < 100_000);
    }
    // Down to the sustain level over the following ~4800 samples (±2%).
    assert!(
        (4704..=4896).contains(&decay_samples),
        "decay took {} samples",
        decay_samples
    );

    // Stays at 0.7 until a note-off arrives.
    for _ in 0..48_000 {
        assert_eq!(env.next_sample(), 700_000_000);
    }
    env.note_off();
    assert_eq!(env.stage, EnvelopeStage::Release);
}

#[test]
fn setters_clamp_to_sane_ranges() {
    let mut env = Envelope::new(44_100);
    env.set_attack(0);
    assert_eq!(env.attack_us, 1_000);
    env.set_attack(99_999_999);
    assert_eq!(env.attack_us, 10_000_000);
    env.set_decay(0);
    assert_eq!(env.decay_us, 1_000);
    env.set_release(0);
    assert_eq!(env.release_us, 1_000);
    env.set_sustain(2_000_000_000);
    assert_eq!(env.sustain_level, LEVEL_ONE);
    env.set_sustain(123);
    assert_eq!(env.sustain_level, 123);
}
