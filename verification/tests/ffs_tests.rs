use ffs::{ffs_imp, ffs_ref};

/// Simple oracle for the expected value: 1-based position of the lowest set
/// bit, or 0 for the zero word.
fn ffs_oracle(word: u32) -> u32 {
    if word == 0 {
        0
    } else {
        word.trailing_zeros() + 1
    }
}

#[test]
fn zero_word_gives_zero() {
    assert_eq!(ffs_ref(0), 0);
    assert_eq!(ffs_imp(0), 0);
}

#[test]
fn one_gives_one() {
    assert_eq!(ffs_ref(1), 1);
    assert_eq!(ffs_imp(1), 1);
}

#[test]
fn two_gives_two() {
    assert_eq!(ffs_ref(2), 2);
    assert_eq!(ffs_imp(2), 2);
}

#[test]
fn highest_bit_gives_thirty_two() {
    assert_eq!(ffs_ref(0x8000_0000), 32);
    assert_eq!(ffs_imp(0x8000_0000), 32);
}

#[test]
fn single_bit_words() {
    for k in 0..32u32 {
        let word = 1u32 << k;
        assert_eq!(ffs_ref(word), k + 1, "ffs_ref(1 << {})", k);
        assert_eq!(ffs_imp(word), k + 1, "ffs_imp(1 << {})", k);
    }
}

#[test]
fn multiple_bits_use_the_lowest() {
    let cases: [(u32, u32); 7] = [
        (0b0000_0110, 2),
        (0b1010_1000, 4),
        (0xFFFF_FFFF, 1),
        (0xFFFF_0000, 17),
        (0x8000_0002, 2),
        (0x0000_0300, 9),
        (0xF0F0_F000, 13),
    ];
    for (word, expected) in cases {
        assert_eq!(ffs_ref(word), expected, "ffs_ref({:#x})", word);
        assert_eq!(ffs_imp(word), expected, "ffs_imp({:#x})", word);
    }
}

#[test]
fn all_ones_word() {
    assert_eq!(ffs_ref(u32::MAX), 1);
    assert_eq!(ffs_imp(u32::MAX), 1);
}

#[test]
fn implementations_agree_on_structured_words() {
    for k in 0..32u32 {
        let single = 1u32 << k;
        let words = [
            single,
            single - 1,
            single | 1,
            single.wrapping_sub(1) ^ u32::MAX,
            single | 0x8000_0000,
        ];
        for word in words {
            let expected = ffs_oracle(word);
            assert_eq!(ffs_ref(word), expected, "ffs_ref({:#x})", word);
            assert_eq!(ffs_imp(word), expected, "ffs_imp({:#x})", word);
        }
    }
}

#[test]
fn implementations_agree_on_randomized_words() {
    // Linear congruential generator (Numerical Recipes constants), so the
    // sweep is deterministic and needs no outside randomness.
    let mut state: u32 = 0x1234_5678;
    for _ in 0..1_000_000u32 {
        state = state.wrapping_mul(1_664_525).wrapping_add(1_013_904_223);
        let expected = ffs_oracle(state);
        assert_eq!(ffs_ref(state), expected, "ffs_ref({:#x})", state);
        assert_eq!(ffs_imp(state), expected, "ffs_imp({:#x})", state);
    }
}

#[test]
fn implementations_agree_on_strided_sweep() {
    // A coarse but even walk across the whole 32-bit space.
    let mut word: u32 = 0;
    loop {
        assert_eq!(ffs_ref(word), ffs_imp(word), "divergence at {:#x}", word);
        match word.checked_add(65_519) {
            Some(next) => word = next,
            None => break,
        }
    }
}
