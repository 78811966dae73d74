//! The byte-representation capability and its mathematical model.
//!
//! A value of byte width `n` has a little-endian byte sequence whose
//! `i`-th element is `(v / 256^i) % 256`, and a big-endian sequence that
//! is the exact reversal of the little-endian one. The capability is
//! implemented once through a shared extraction routine on `u128` (wide
//! enough for every supported width) and instantiated per concrete type.

use vstd::arithmetic::div_mod::{lemma_div_basics_2, lemma_div_denominator};
use vstd::arithmetic::power2::{lemma2_to64, lemma_pow2_adds, lemma_pow2_pos, pow2};
use vstd::prelude::*;

verus! {

/// Byte `i` (counting from the least significant) of the value `v`.
pub open spec fn le_byte_of(v: nat, i: nat) -> u8 {
    ((v / pow2(8 * i)) % 256) as u8
}

/// The `n` least significant bytes of `v`, least significant first.
pub open spec fn le_bytes_of(v: nat, n: nat) -> Seq<u8> {
    Seq::new(n, |i: int| le_byte_of(v, i as nat))
}

/// The `n` least significant bytes of `v`, most significant first:
/// by definition the reversal of the little-endian sequence.
pub open spec fn be_bytes_of(v: nat, n: nat) -> Seq<u8> {
    le_bytes_of(v, n).reverse()
}

/// The value a byte sequence denotes when read as little-endian:
/// the first byte is the least significant.
pub open spec fn le_value_of(s: Seq<u8>) -> nat
    decreases s.len(),
{
    if s.len() == 0 {
        0
    } else {
        (s[0] + 256 * le_value_of(s.drop_first())) as nat
    }
}

/// The value a byte sequence denotes when read as big-endian:
/// the last byte is the least significant.
pub open spec fn be_value_of(s: Seq<u8>) -> nat
    decreases s.len(),
{
    if s.len() == 0 {
        0
    } else {
        (256 * be_value_of(s.drop_last()) + s.last()) as nat
    }
}

/// Extracts the `n` least significant bytes of `v`, least significant
/// first, by repeated shift and mask.
pub fn le_bytes_from_u128(v: u128, n: usize) -> (r: Vec<u8>)
    ensures
        r@ == le_bytes_of(v as nat, n as nat),
{
    let mut r: Vec<u8> = Vec::new();
    let mut cur: u128 = v;
    let mut i: usize = 0;
    proof {
        lemma2_to64();
        lemma_div_basics_2(v as int);
    }
    while i < n
        invariant
            i <= n,
            cur as nat == v as nat / pow2(8 * i as nat),
            r@ == le_bytes_of(v as nat, n as nat).take(i as int),
        decreases n - i,
    {
        proof {
            assert(cur & 0xff == cur % 256 && cur & 0xff < 0x100) by (bit_vector);
        }
        let b: u8 = (cur & 0xff) as u8;
        proof {
            assert(le_bytes_of(v as nat, n as nat).take(i + 1) =~= le_bytes_of(
                v as nat,
                n as nat,
            ).take(i as int).push(le_byte_of(v as nat, i as nat)));
        }
        r.push(b);
        proof {
            assert(cur >> 8 == cur / 256) by (bit_vector);
            lemma_pow2_pos(8 * i as nat);
            lemma_div_denominator(v as int, pow2(8 * i as nat) as int, 256);
            lemma2_to64();
            lemma_pow2_adds(8 * i as nat, 8);
            assert(cur as nat / 256 == v as nat / pow2(8 * (i + 1) as nat));
        }
        cur = cur >> 8;
        i = i + 1;
    }
    proof {
        assert(r@ =~= le_bytes_of(v as nat, n as nat));
    }
    r
}

/// The byte-representation capability: a fixed-width unsigned value can
/// produce its bytes in both orderings. `byte_width` is the number of
/// bytes of the type, `as_nat` the value as a mathematical integer; the
/// two executable methods are pinned to the model exactly, so the two
/// orderings are always derived from the same value.
pub trait ByteRepr: Sized {
    /// The number of bytes of the type.
    spec fn byte_width() -> nat;

    /// The represented value as a mathematical integer.
    spec fn as_nat(&self) -> nat;

    /// The byte width is at least one.
    proof fn byte_width_positive()
        ensures
            Self::byte_width() >= 1,
    ;

    /// Every value fits in the type's byte width.
    proof fn as_nat_bounded(&self)
        ensures
            self.as_nat() < pow2(8 * Self::byte_width()),
    ;

    /// The value, widened to the largest supported width.
    fn as_u128(&self) -> (r: u128)
        ensures
            r as nat == self.as_nat(),
    ;

    /// The value's bytes, least significant first.
    fn to_le_bytes(&self) -> (r: Vec<u8>)
        ensures
            r@ == le_bytes_of(self.as_nat(), Self::byte_width()),
    ;

    /// The value's bytes, most significant first.
    fn to_be_bytes(&self) -> (r: Vec<u8>)
        ensures
            r@ == be_bytes_of(self.as_nat(), Self::byte_width()),
    ;
}

/// Returns the bytes of `v` in the opposite order.
pub fn reverse_bytes(v: &Vec<u8>) -> (r: Vec<u8>)
    ensures
        r@ == v@.reverse(),
{
    let mut r: Vec<u8> = Vec::new();
    let mut i: usize = 0;
    while i < v.len()
        invariant
            i <= v@.len(),
            r@.len() == i,
            forall|j: int| 0 <= j < i ==> r@[j] == v@[v@.len() - 1 - j],
        decreases v@.len() - i,
    {
        r.push(v[v.len() - 1 - i]);
        i = i + 1;
    }
    proof {
        assert(r@ =~= v@.reverse());
    }
    r
}

impl ByteRepr for u8 {
    open spec fn byte_width() -> nat {
        1
    }

    open spec fn as_nat(&self) -> nat {
        *self as nat
    }

    proof fn byte_width_positive() {
    }

    proof fn as_nat_bounded(&self) {
        lemma2_to64();
    }

    fn as_u128(&self) -> (r: u128) {
        *self as u128
    }

    fn to_le_bytes(&self) -> (r: Vec<u8>) {
        le_bytes_from_u128(*self as u128, 1)
    }

    fn to_be_bytes(&self) -> (r: Vec<u8>) {
        let le = le_bytes_from_u128(*self as u128, 1);
        reverse_bytes(&le)
    }
}

impl ByteRepr for u16 {
    open spec fn byte_width() -> nat {
        2
    }

    open spec fn as_nat(&self) -> nat {
        *self as nat
    }

    proof fn byte_width_positive() {
    }

    proof fn as_nat_bounded(&self) {
        lemma2_to64();
    }

    fn as_u128(&self) -> (r: u128) {
        *self as u128
    }

    fn to_le_bytes(&self) -> (r: Vec<u8>) {
        le_bytes_from_u128(*self as u128, 2)
    }

    fn to_be_bytes(&self) -> (r: Vec<u8>) {
        let le = le_bytes_from_u128(*self as u128, 2);
        reverse_bytes(&le)
    }
}

impl ByteRepr for u32 {
    open spec fn byte_width() -> nat {
        4
    }

    open spec fn as_nat(&self) -> nat {
        *self as nat
    }

    proof fn byte_width_positive() {
    }

    proof fn as_nat_bounded(&self) {
        lemma2_to64();
    }

    fn as_u128(&self) -> (r: u128) {
        *self as u128
    }

    fn to_le_bytes(&self) -> (r: Vec<u8>) {
        le_bytes_from_u128(*self as u128, 4)
    }

    fn to_be_bytes(&self) -> (r: Vec<u8>) {
        let le = le_bytes_from_u128(*self as u128, 4);
        reverse_bytes(&le)
    }
}

impl ByteRepr for u64 {
    open spec fn byte_width() -> nat {
        8
    }

    open spec fn as_nat(&self) -> nat {
        *self as nat
    }

    proof fn byte_width_positive() {
    }

    proof fn as_nat_bounded(&self) {
        lemma2_to64();
    }

    fn as_u128(&self) -> (r: u128) {
        *self as u128
    }

    fn to_le_bytes(&self) -> (r: Vec<u8>) {
        le_bytes_from_u128(*self as u128, 8)
    }

    fn to_be_bytes(&self) -> (r: Vec<u8>) {
        let le = le_bytes_from_u128(*self as u128, 8);
        reverse_bytes(&le)
    }
}

impl ByteRepr for u128 {
    open spec fn byte_width() -> nat {
        16
    }

    open spec fn as_nat(&self) -> nat {
        *self as nat
    }

    proof fn byte_width_positive() {
    }

    proof fn as_nat_bounded(&self) {
        lemma2_to64();
        lemma_pow2_adds(64, 64);
    }

    fn as_u128(&self) -> (r: u128) {
        *self
    }

    fn to_le_bytes(&self) -> (r: Vec<u8>) {
        le_bytes_from_u128(*self, 16)
    }

    fn to_be_bytes(&self) -> (r: Vec<u8>) {
        let le = le_bytes_from_u128(*self, 16);
        reverse_bytes(&le)
    }
}

/// The platform-width type is given eight bytes, the widest word it
/// can occupy, so its representation is the same on every host.
impl ByteRepr for usize {
    open spec fn byte_width() -> nat {
        8
    }

    open spec fn as_nat(&self) -> nat {
        *self as nat
    }

    proof fn byte_width_positive() {
    }

    proof fn as_nat_bounded(&self) {
        lemma2_to64();
    }

    fn as_u128(&self) -> (r: u128) {
        *self as u128
    }

    fn to_le_bytes(&self) -> (r: Vec<u8>) {
        le_bytes_from_u128(*self as u128, 8)
    }

    fn to_be_bytes(&self) -> (r: Vec<u8>) {
        let le = le_bytes_from_u128(*self as u128, 8);
        reverse_bytes(&le)
    }
}

} // verus!
