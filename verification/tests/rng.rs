use polysynth::rng::Xoshiro256PlusPlus;

#[test]
fn seeding_matches_splitmix64_reference() {
    let r = Xoshiro256PlusPlus::seed_from_u64(0);
    assert_eq!(r.s0, 16294208416658607535);
    assert_eq!(r.s1, 7960286522194355700);
    assert_eq!(r.s2, 487617019471545679);
    assert_eq!(r.s3, 17909611376780542444);
}

#[test]
fn outputs_match_xoshiro_reference() {
    let mut r = Xoshiro256PlusPlus::seed_from_u64(0);
    assert_eq!(r.next_u32(), 1225466847);
    assert_eq!(r.next_u32(), 3280000263);
    assert_eq!(r.next_u32(), 3969547260);
    assert_eq!(r.next_u32(), 1002331674);
    let mut r1 = Xoshiro256PlusPlus::seed_from_u64(1);
    assert_eq!(r1.next_u32(), 1862517403);
    assert_eq!(r1.next_u32(), 2520768653);
}

#[test]
fn same_seed_same_stream() {
    let mut a = Xoshiro256PlusPlus::seed_from_u64(42);
    let mut b = Xoshiro256PlusPlus::seed_from_u64(42);
    for _ in 0..100 {
        assert_eq!(a.next_u32(), b.next_u32());
    }
}

#[test]
fn different_seeds_diverge() {
    let mut a = Xoshiro256PlusPlus::seed_from_u64(7);
    let mut b = Xoshiro256PlusPlus::seed_from_u64(8);
    let mut differs = false;
    for _ in 0..8 {
        if a.next_u32() != b.next_u32() {
            differs = true;
        }
    }
    assert!(differs);
}
