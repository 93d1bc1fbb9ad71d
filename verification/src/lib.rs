//! Find-first-set for 32-bit words.
//!
//! Both entry points return the 1-based position of the least-significant set
//! bit of a `u32`, or 0 when the word is zero. `ffs_ref` scans the bits one by
//! one; `ffs_imp` narrows the search by halving, in a fixed number of steps.
//! Each is proved to return exactly `first_set(word)`, so the two always agree.
use vstd::prelude::*;

verus! {

/// True when bit `i` of `w` (counting from the least-significant bit) is set.
pub open spec fn bit_set(w: u32, i: u32) -> bool
    recommends
        i < 32,
{
    (w >> i) & 1 == 1
}

/// Scan of the bits of `w` from position `i` upward: the 1-based position of
/// the first set bit at or above `i`, or 0 when no bit in `i..32` is set.
pub open spec fn first_set_from(w: u32, i: u32) -> u32
    decreases 32 - i,
{
    if i >= 32 {
        0
    } else if bit_set(w, i) {
        (i + 1) as u32
    } else {
        first_set_from(w, (i + 1) as u32)
    }
}

/// The find-first-set function: the 1-based position of the least-significant
/// set bit of `w`, or 0 when `w == 0`.
pub open spec fn first_set(w: u32) -> u32 {
    first_set_from(w, 0)
}

/// A scan that finds no set bit in `i..32` yields the sentinel 0.
proof fn lemma_first_set_from_none(w: u32, i: u32)
    requires
        forall|j: u32| i <= j < 32 ==> !bit_set(w, j),
    ensures
        first_set_from(w, i) == 0,
    decreases 32 - i,
{
    if i < 32 {
        assert(!bit_set(w, i));
        lemma_first_set_from_none(w, (i + 1) as u32);
    }
}

/// A scan from `i` stops at the first set position `k` at or above `i`.
proof fn lemma_first_set_from_found(w: u32, i: u32, k: u32)
    requires
        i <= k < 32,
        bit_set(w, k),
        forall|j: u32| i <= j < k ==> !bit_set(w, j),
    ensures
        first_set_from(w, i) == k + 1,
    decreases k - i,
{
    if i < k {
        assert(!bit_set(w, i));
        lemma_first_set_from_found(w, (i + 1) as u32, k);
    }
}

/// The zero word has no set bit, so its find-first-set value is 0.
proof fn lemma_first_set_zero_word()
    ensures
        first_set(0) == 0,
{
    assert forall|j: u32| j < 32 implies !bit_set(0u32, j) by {
        assert((0u32 >> j) & 1 == 0) by (bit_vector);
    }
    lemma_first_set_from_none(0, 0);
}

/// Law: when bit `k` of `w` is set and every lower bit is clear, the
/// find-first-set value of `w` is `k + 1`, whatever the higher bits hold.
pub proof fn lemma_first_set_lowest(w: u32, k: u32)
    requires
        k < 32,
        bit_set(w, k),
        forall|j: u32| j < k ==> !bit_set(w, j),
    ensures
        first_set(w) == k + 1,
{
    lemma_first_set_from_found(w, 0, k);
}

/// Law: a word with exactly one set bit, at position `k`, has find-first-set
/// value `k + 1`.
pub proof fn lemma_first_set_single_bit(k: u32)
    requires
        k < 32,
    ensures
        first_set(1u32 << k) == k + 1,
{
    assert(bit_set(1u32 << k, k)) by (bit_vector)
        requires
            k < 32,
    ;
    assert forall|j: u32| j < k implies !bit_set(1u32 << k, j) by {
        assert(((1u32 << k) >> j) & 1 == 0) by (bit_vector)
            requires
                j < k && k < 32,
        ;
    }
    lemma_first_set_lowest(1u32 << k, k);
}

/// One halving step of the optimized scanner. `i` is the view of `word` with
/// its low `shift` bits (all clear) shifted away. When the low `amt` bits of
/// `i` are also clear, the view can be narrowed past them: the shifted view
/// moves up by `amt`, the cleared region of `word` grows by `amt`, and the
/// view stays nonzero unless it was zero.
proof fn lemma_narrow(word: u32, i: u32, shift: u32, amt: u32, shift2: u32)
    requires
        amt <= 16,
        shift2 == shift + amt,
        shift2 <= 32,
        i == word >> shift,
        (i >> amt) << amt == i,
        forall|j: u32| j < shift ==> !bit_set(word, j),
    ensures
        i >> amt == word >> shift2,
        forall|j: u32| j < shift2 ==> !bit_set(word, j),
        (i >> amt == 0) <==> (i == 0),
{
    assert(i >> amt == word >> shift2) by (bit_vector)
        requires
            i == word >> shift && shift2 == shift + amt && shift2 <= 32,
    ;
    assert forall|j: u32| j < shift2 implies !bit_set(word, j) by {
        if shift <= j {
            assert((word >> j) & 1 != 1) by (bit_vector)
                requires
                    i == word >> shift && (i >> amt) << amt == i && shift <= j && j < shift2
                        && shift2 == shift + amt && shift2 <= 32,
            ;
        }
    }
    assert((i >> amt == 0) <==> (i == 0)) by (bit_vector)
        requires
            (i >> amt) << amt == i,
    ;
}

/// Reference scanner: tests the bits of `word` from position 0 upward and
/// returns the 1-based position of the first set bit, or 0 for the zero word.
pub fn ffs_ref(word: u32) -> (r: u32)
    ensures
        r == first_set(word),
{
    if word == 0 {
        proof {
            lemma_first_set_zero_word();
        }
        return 0;
    }
    let mut i: u32 = 0;
    while i < 32
        invariant
            i <= 32,
            forall|j: u32| j < i ==> !bit_set(word, j),
        decreases 32 - i,
    {
        if ((1u32 << i) & word) != 0 {
            proof {
                assert(bit_set(word, i)) by (bit_vector)
                    requires
                        ((1u32 << i) & word) != 0 && i < 32,
                ;
                lemma_first_set_from_found(word, 0, i);
            }
            return i + 1;
        }
        proof {
            assert(!bit_set(word, i)) by (bit_vector)
                requires
                    ((1u32 << i) & word) == 0 && i < 32,
            ;
        }
        i = i + 1;
    }
    proof {
        lemma_first_set_from_none(word, 0);
    }
    return 0;
}

/// Optimized scanner: narrows the search for the lowest set bit by halving.
/// Whenever the low 16, 8, 4, then 2 bits of the working value are all clear,
/// it adds that count to the running 1-based position `n` and shifts the
/// cleared bits away. Afterwards the lowest set bit of the original word, if
/// any, sits in the low 2 bits of the working value, and one parity test of
/// the working value settles which of the two positions it is. Returns the
/// same value as `ffs_ref` for every input: `first_set(word)`.
pub fn ffs_imp(word: u32) -> (r: u32)
    ensures
        r == first_set(word),
{
    let mut i: u32 = word;
    let mut n: u32 = 1;
    let ghost mut shift: u32 = 0;
    proof {
        assert(word >> 0u32 == word) by (bit_vector);
    }
    if (i & 0xffff) == 0 {
        proof {
            assert((i >> 16u32) << 16u32 == i) by (bit_vector)
                requires
                    i & 0xffff == 0,
            ;
            lemma_narrow(word, i, shift, 16, (shift + 16) as u32);
            shift = (shift + 16) as u32;
        }
        n += 16;
        i >>= 16;
    }
    proof {
        // after the first step a set bit of `i`, if any, lies below bit 16
        assert(i == 0 || i << 16u32 != 0) by (bit_vector)
            requires
                i == word >> shift && (shift == 16 || (shift == 0 && i & 0xffff != 0)),
        ;
    }
    if (i & 0x00ff) == 0 {
        proof {
            assert((i >> 8u32) << 8u32 == i) by (bit_vector)
                requires
                    i & 0x00ff == 0,
            ;
            assert(i >> 8u32 == 0 || (i >> 8u32) << 24u32 != 0) by (bit_vector)
                requires
                    (i == 0 || i << 16u32 != 0) && i & 0x00ff == 0,
            ;
            lemma_narrow(word, i, shift, 8, (shift + 8) as u32);
            shift = (shift + 8) as u32;
        }
        n += 8;
        i >>= 8;
    } else {
        proof {
            assert(i << 24u32 != 0) by (bit_vector)
                requires
                    i & 0x00ff != 0,
            ;
        }
    }
    if (i & 0x000f) == 0 {
        proof {
            assert((i >> 4u32) << 4u32 == i) by (bit_vector)
                requires
                    i & 0x000f == 0,
            ;
            assert(i >> 4u32 == 0 || (i >> 4u32) << 28u32 != 0) by (bit_vector)
                requires
                    (i == 0 || i << 24u32 != 0) && i & 0x000f == 0,
            ;
            lemma_narrow(word, i, shift, 4, (shift + 4) as u32);
            shift = (shift + 4) as u32;
        }
        n += 4;
        i >>= 4;
    } else {
        proof {
            assert(i << 28u32 != 0) by (bit_vector)
                requires
                    i & 0x000f != 0,
            ;
        }
    }
    if (i & 0x0003) == 0 {
        proof {
            assert((i >> 2u32) << 2u32 == i) by (bit_vector)
                requires
                    i & 0x0003 == 0,
            ;
            assert(i >> 2u32 == 0 || (i >> 2u32) << 30u32 != 0) by (bit_vector)
                requires
                    (i == 0 || i << 28u32 != 0) && i & 0x0003 == 0,
            ;
            lemma_narrow(word, i, shift, 2, (shift + 2) as u32);
            shift = (shift + 2) as u32;
        }
        n += 2;
        i >>= 2;
    } else {
        proof {
            assert(i << 30u32 != 0) by (bit_vector)
                requires
                    i & 0x0003 != 0,
            ;
        }
    }
    if i != 0 {
        proof {
            assert(i & 1 == 0 || i & 1 == 1) by (bit_vector);
            if i & 1 == 1 {
                assert(bit_set(word, shift));
                lemma_first_set_from_found(word, 0, shift);
            } else {
                let s1: u32 = (shift + 1) as u32;
                assert((word >> s1) & 1 == 1) by (bit_vector)
                    requires
                        i == word >> shift && i != 0 && i << 30u32 != 0 && i & 1 == 0 && s1
                            == shift + 1 && shift <= 30,
                ;
                assert(!bit_set(word, shift));
                assert(forall|j: u32| j < s1 ==> !bit_set(word, j));
                lemma_first_set_from_found(word, 0, s1);
            }
            assert(vstd::wrapping::u32_specs::wrapping_add(i, 1) & 1 == (if i & 1 == 1 {
                0u32
            } else {
                1u32
            })) by (bit_vector);
        }
        n + (i.wrapping_add(1) & 0x01)
    } else {
        proof {
            lemma_first_set_zero_word();
        }
        0
    }
}

} // verus!
