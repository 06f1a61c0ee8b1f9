use atsamd_demo::compare::{bytes_equal, compare_words, words_equal};
use atsamd_demo::icm::{
    corrupt_word, hash_phase_config, interrupt_decision, monitor_phase_config, region_algorithm,
    Algorithm, IcmStep, RegionMask,
};

// The padded one-block message "abc" and its digests, as the demo's
// known-answer data has them (little-endian words).
const MESSAGE_REF1: [u32; 16] = [
    0x80636261, 0x00000000, 0x00000000, 0x00000000, 0x00000000, 0x00000000, 0x00000000, 0x00000000,
    0x00000000, 0x00000000, 0x00000000, 0x00000000, 0x00000000, 0x00000000, 0x00000000, 0x18000000,
];

const MESSAGE_SHA1_RES: [u32; 8] = [
    0x363e99a9, 0x6a810647, 0x71253eba, 0x6cc25078, 0x9dd8d09c, 0x00000000, 0x00000000, 0x00000000,
];

const MESSAGE_SHA224_RES: [u32; 8] = [
    0x227d0923, 0x22d80534, 0x77a44286, 0xb355a2bd, 0xe4bcad2a, 0xf7b3a0bd, 0xa79d6ce3, 0x00000000,
];

#[test]
fn mask_contains_and_is_all() {
    let m = RegionMask::from_bits(0b0101);
    assert!(m.contains(0));
    assert!(!m.contains(1));
    assert!(m.contains(2));
    assert!(!m.contains(3));
    assert!(!m.is_all());
    assert!(RegionMask::from_bits(0x0f).is_all());
    // Only the low four bits of the status vector count.
    assert!(RegionMask::from_bits(0xf0).contains(0) == false);
    assert!(RegionMask::from_bits(0xff).is_all());
}

#[test]
fn decision_prefers_completed_hashes() {
    let all = RegionMask::from_bits(0x0f);
    let none = RegionMask::from_bits(0x00);
    assert_eq!(interrupt_decision(all, none), IcmStep::CompareAndRearm);
    assert_eq!(interrupt_decision(all, all), IcmStep::CompareAndRearm);
    assert_eq!(interrupt_decision(none, all), IcmStep::ReportMismatch(all));
    assert_eq!(interrupt_decision(none, none), IcmStep::Idle);
    // A partial set of either flag is not acted on.
    let some = RegionMask::from_bits(0b0011);
    assert_eq!(interrupt_decision(some, some), IcmStep::Idle);
}

#[test]
fn region_algorithms() {
    assert_eq!(region_algorithm(0), Algorithm::Sha1);
    assert_eq!(region_algorithm(1), Algorithm::Sha1);
    assert_eq!(region_algorithm(2), Algorithm::Sha224);
    assert_eq!(region_algorithm(3), Algorithm::Sha256);
}

#[test]
fn hash_phase_descriptors() {
    for r in 0..4usize {
        let c = hash_phase_config(r);
        assert_eq!(c.algo, region_algorithm(r));
        assert!(!c.cdwbn);
        assert!(!c.wrap);
        assert_eq!(c.eom, r == 3);
        assert!(!c.rhien);
        assert!(!c.dmien);
    }
}

#[test]
fn monitor_phase_descriptors() {
    for r in 0..4usize {
        let c = monitor_phase_config(r);
        assert_eq!(c.algo, region_algorithm(r));
        assert!(c.cdwbn);
        assert_eq!(c.wrap, r == 3);
        assert!(!c.eom);
        assert!(!c.rhien);
        assert!(!c.dmien);
    }
}

#[test]
fn corruption_hits_one_word_per_region() {
    for r in 0..4usize {
        let mut msg = MESSAGE_REF1.to_vec();
        corrupt_word(&mut msg, r);
        for (i, w) in msg.iter().enumerate() {
            if i == 3 + r {
                assert_eq!(*w, 0xDEAD_BEEF);
            } else {
                assert_eq!(*w, MESSAGE_REF1[i]);
            }
        }
    }
}

#[test]
fn digest_comparison_flags_every_word() {
    let expected = MESSAGE_SHA1_RES.to_vec();
    let m = compare_words(&expected, &expected);
    assert_eq!(m, vec![true; 8]);
    let other = MESSAGE_SHA224_RES.to_vec();
    let m2 = compare_words(&expected, &other);
    // "abc" hashes differently under SHA-1 and SHA-224 except for the
    // padding word both leave zero.
    assert_eq!(m2, vec![false, false, false, false, false, false, false, true]);
}

#[test]
fn compare_words_uses_actual_prefix() {
    let expected = vec![1u32, 2];
    let actual = vec![1u32, 3, 9];
    assert_eq!(compare_words(&expected, &actual), vec![true, false]);
}

#[test]
fn word_and_byte_equality() {
    assert!(words_equal(&MESSAGE_REF1.to_vec(), &MESSAGE_REF1.to_vec()));
    let mut tampered = MESSAGE_REF1.to_vec();
    corrupt_word(&mut tampered, 0);
    assert!(!words_equal(&MESSAGE_REF1.to_vec(), &tampered));
    assert!(!words_equal(&MESSAGE_REF1.to_vec(), &MESSAGE_REF1[..8].to_vec()));
    // The cipher-block check of the AES demo: equal and unequal blocks.
    let block = vec![
        0x29u8, 0xC3, 0x50, 0x5F, 0x57, 0x14, 0x20, 0xF6, 0x40, 0x22, 0x99, 0xB3, 0x1A, 0x02,
        0xD7, 0x3A,
    ];
    assert!(bytes_equal(&block, &block.clone()));
    let mut other = block.clone();
    other[15] ^= 1;
    assert!(!bytes_equal(&block, &other));
}
