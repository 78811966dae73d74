//! Library-wide properties of the byte-representation model.

use crate::repr::{be_bytes_of, be_value_of, le_byte_of, le_bytes_of, le_value_of, ByteRepr};
use vstd::arithmetic::div_mod::{
    lemma_div_basics_2, lemma_div_denominator, lemma_fundamental_div_mod, lemma_mod_breakdown,
    lemma_small_mod,
};
use vstd::arithmetic::power2::{lemma2_to64, lemma_pow2_adds, lemma_pow2_pos, pow2};
use vstd::prelude::*;

verus! {

/// The two orderings are exact reversals of each other for every width,
/// and therefore identical when the width is one byte.
pub proof fn lemma_endian_reversal(v: nat, n: nat)
    ensures
        be_bytes_of(v, n) == le_bytes_of(v, n).reverse(),
        n == 1 ==> be_bytes_of(v, n) == le_bytes_of(v, n),
{
    if n == 1 {
        assert(be_bytes_of(v, n) =~= le_bytes_of(v, n));
    }
}

/// Both byte sequences have exactly the byte width of the value.
pub proof fn lemma_length_invariant(v: nat, n: nat)
    ensures
        le_bytes_of(v, n).len() == n,
        be_bytes_of(v, n).len() == n,
{
}

/// Dropping the least significant byte of the sequence leaves the byte
/// sequence of the value divided by 256.
proof fn lemma_le_bytes_shift(v: nat, n: nat)
    requires
        n >= 1,
    ensures
        le_bytes_of(v, n).drop_first() == le_bytes_of(v / 256, (n - 1) as nat),
{
    assert forall|j: int| 0 <= j < n - 1 implies le_bytes_of(v, n).drop_first()[j] == le_bytes_of(
        v / 256,
        (n - 1) as nat,
    )[j] by {
        lemma2_to64();
        lemma_pow2_pos(8 * j as nat);
        lemma_div_denominator(v as int, 256, pow2(8 * j as nat) as int);
        lemma_pow2_adds(8, 8 * j as nat);
        assert(le_byte_of(v, (j + 1) as nat) == le_byte_of(v / 256, j as nat));
    }
    assert(le_bytes_of(v, n).drop_first() =~= le_bytes_of(v / 256, (n - 1) as nat));
}

/// Reading the `n` least significant bytes of `v` back as a
/// little-endian integer yields `v` reduced modulo `256^n`.
pub proof fn lemma_le_value_mod(v: nat, n: nat)
    ensures
        le_value_of(le_bytes_of(v, n)) == v % pow2(8 * n),
    decreases n,
{
    if n == 0 {
        lemma2_to64();
        lemma_fundamental_div_mod(v as int, 1);
        lemma_div_basics_2(v as int);
        assert(le_bytes_of(v, 0) =~= Seq::<u8>::empty());
    } else {
        lemma2_to64();
        lemma_div_basics_2(v as int);
        lemma_le_bytes_shift(v, n);
        lemma_le_value_mod(v / 256, (n - 1) as nat);
        assert(le_bytes_of(v, n)[0] == le_byte_of(v, 0));
        assert(le_byte_of(v, 0) == v % 256);
        lemma_pow2_pos(8 * (n - 1) as nat);
        lemma_mod_breakdown(v as int, 256, pow2(8 * (n - 1) as nat) as int);
        lemma_pow2_adds(8, 8 * (n - 1) as nat);
    }
}

/// Reading a byte sequence backwards as big-endian gives the same value
/// as reading it forwards as little-endian.
pub proof fn lemma_reverse_value(s: Seq<u8>)
    ensures
        be_value_of(s.reverse()) == le_value_of(s),
    decreases s.len(),
{
    if s.len() > 0 {
        assert(s.reverse().drop_last() =~= s.drop_first().reverse());
        assert(s.reverse().last() == s[0]);
        lemma_reverse_value(s.drop_first());
    }
}

/// Reconstruction: interpreting the little-endian bytes of `v` as a
/// little-endian integer gives back exactly `v`, for any `v` that fits
/// in `n` bytes.
pub proof fn lemma_le_reconstruction(v: nat, n: nat)
    requires
        v < pow2(8 * n),
    ensures
        le_value_of(le_bytes_of(v, n)) == v,
{
    lemma_le_value_mod(v, n);
    lemma_pow2_pos(8 * n);
    lemma_small_mod(v, pow2(8 * n));
}

/// Reconstruction: interpreting the big-endian bytes of `v` as a
/// big-endian integer gives back exactly `v`, for any `v` that fits in
/// `n` bytes.
pub proof fn lemma_be_reconstruction(v: nat, n: nat)
    requires
        v < pow2(8 * n),
    ensures
        be_value_of(be_bytes_of(v, n)) == v,
{
    lemma_reverse_value(le_bytes_of(v, n));
    lemma_le_reconstruction(v, n);
}

/// Both reconstructions, stated for every value of every type that has
/// the capability: the bound on the value comes from the capability
/// itself, so no caller-side premise is needed.
pub proof fn lemma_reconstruction<T: ByteRepr>(x: &T)
    ensures
        le_value_of(le_bytes_of(x.as_nat(), T::byte_width())) == x.as_nat(),
        be_value_of(be_bytes_of(x.as_nat(), T::byte_width())) == x.as_nat(),
{
    x.as_nat_bounded();
    lemma_le_reconstruction(x.as_nat(), T::byte_width());
    lemma_be_reconstruction(x.as_nat(), T::byte_width());
}

/// Determinism: the capability's contract pins each result to a
/// function of the value and the width alone, so any two little-endian
/// results for the same value agree byte for byte, and likewise any two
/// big-endian results.
pub proof fn lemma_deterministic(v: nat, n: nat, le1: Seq<u8>, le2: Seq<u8>, be1: Seq<u8>, be2: Seq<u8>)
    requires
        le1 == le_bytes_of(v, n),
        le2 == le_bytes_of(v, n),
        be1 == be_bytes_of(v, n),
        be2 == be_bytes_of(v, n),
    ensures
        le1 == le2,
        be1 == be2,
        forall|j: int| 0 <= j < le1.len() ==> le1[j] == le2[j],
        forall|j: int| 0 <= j < be1.len() ==> be1[j] == be2[j],
{
}

} // verus!
