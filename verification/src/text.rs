//! Verified text rendering of values and byte sequences.

use crate::repr::{be_bytes_of, le_bytes_of, ByteRepr};
use vstd::prelude::*;

verus! {

/// The character for the digit `d`, for `d < 16`.
pub open spec fn digit_char(d: nat) -> char
    recommends
        d < 16,
{
    if d == 0 {
        '0'
    } else if d == 1 {
        '1'
    } else if d == 2 {
        '2'
    } else if d == 3 {
        '3'
    } else if d == 4 {
        '4'
    } else if d == 5 {
        '5'
    } else if d == 6 {
        '6'
    } else if d == 7 {
        '7'
    } else if d == 8 {
        '8'
    } else if d == 9 {
        '9'
    } else if d == 10 {
        'a'
    } else if d == 11 {
        'b'
    } else if d == 12 {
        'c'
    } else if d == 13 {
        'd'
    } else if d == 14 {
        'e'
    } else {
        'f'
    }
}

/// The decimal digits of `v`, most significant first, with no leading
/// zeros except for the value zero itself.
pub open spec fn dec_chars(v: nat) -> Seq<char>
    decreases v,
{
    if v < 10 {
        seq![digit_char(v)]
    } else {
        dec_chars(v / 10).push(digit_char(v % 10))
    }
}

/// The binary digits of `v`, most significant first, with no leading
/// zeros except for the value zero itself.
pub open spec fn bin_chars(v: nat) -> Seq<char>
    decreases v,
{
    if v < 2 {
        seq![digit_char(v)]
    } else {
        bin_chars(v / 2).push(digit_char(v % 2))
    }
}

/// The two lowercase hexadecimal digits of the byte `b`, zero-padded.
pub open spec fn hex_byte_chars(b: u8) -> Seq<char> {
    seq![digit_char(b as nat / 16), digit_char(b as nat % 16)]
}

/// The character for the digit `d`, for `d < 16`.
fn digit_of(d: u8) -> (c: char)
    requires
        d < 16,
    ensures
        c == digit_char(d as nat),
{
    if d == 0 {
        '0'
    } else if d == 1 {
        '1'
    } else if d == 2 {
        '2'
    } else if d == 3 {
        '3'
    } else if d == 4 {
        '4'
    } else if d == 5 {
        '5'
    } else if d == 6 {
        '6'
    } else if d == 7 {
        '7'
    } else if d == 8 {
        '8'
    } else if d == 9 {
        '9'
    } else if d == 10 {
        'a'
    } else if d == 11 {
        'b'
    } else if d == 12 {
        'c'
    } else if d == 13 {
        'd'
    } else if d == 14 {
        'e'
    } else {
        'f'
    }
}

/// Relies on `String::push`: appends one character at the end of the
/// string, leaving the rest unchanged.
#[verifier::external_body]
fn push_char(s: &mut String, c: char)
    ensures
        final(s)@ == old(s)@.push(c),
{
    s.push(c);
}

/// Relies on `str::push_str` (`String::push_str`): appends the whole
/// string slice at the end of the string, leaving the rest unchanged.
#[verifier::external_body]
fn append_str(s: &mut String, t: &str)
    ensures
        final(s)@ == old(s)@ + t@,
{
    s.push_str(t);
}

/// Renders `v` in decimal, most significant digit first.
pub fn decimal_string(v: u128) -> (s: String)
    ensures
        s@ == dec_chars(v as nat),
    decreases v,
{
    if v < 10 {
        let mut s = String::new();
        push_char(&mut s, digit_of(v as u8));
        s
    } else {
        let mut s = decimal_string(v / 10);
        push_char(&mut s, digit_of((v % 10) as u8));
        s
    }
}

/// Renders `v` in binary, most significant digit first, with no fixed
/// width: the minimal digit string.
pub fn binary_string(v: u128) -> (s: String)
    ensures
        s@ == bin_chars(v as nat),
    decreases v,
{
    if v < 2 {
        let mut s = String::new();
        push_char(&mut s, digit_of(v as u8));
        s
    } else {
        let mut s = binary_string(v / 2);
        push_char(&mut s, digit_of((v % 2) as u8));
        s
    }
}

/// The bytes of `s` in decimal, separated by a comma and a space, in
/// the order given.
pub open spec fn dec_list_body(s: Seq<u8>) -> Seq<char>
    decreases s.len(),
{
    if s.len() == 0 {
        Seq::empty()
    } else if s.len() == 1 {
        dec_chars(s[0] as nat)
    } else {
        dec_list_body(s.drop_last()) + seq![',', ' '] + dec_chars(s.last() as nat)
    }
}

/// The bytes of `s` in decimal, bracketed and comma-separated.
pub open spec fn dec_list_chars(s: Seq<u8>) -> Seq<char> {
    seq!['['] + dec_list_body(s) + seq![']']
}

/// The bytes of `s` as two-digit hexadecimal, separated by a comma and
/// a space, in the order given.
pub open spec fn hex_list_body(s: Seq<u8>) -> Seq<char>
    decreases s.len(),
{
    if s.len() == 0 {
        Seq::empty()
    } else if s.len() == 1 {
        hex_byte_chars(s[0])
    } else {
        hex_list_body(s.drop_last()) + seq![',', ' '] + hex_byte_chars(s.last())
    }
}

/// The bytes of `s` as two-digit hexadecimal, bracketed and
/// comma-separated.
pub open spec fn hex_list_chars(s: Seq<u8>) -> Seq<char> {
    seq!['['] + hex_list_body(s) + seq![']']
}

/// Renders the byte `b` as exactly two lowercase hexadecimal digits.
pub fn hex_byte_string(b: u8) -> (s: String)
    ensures
        s@ == hex_byte_chars(b),
        s@.len() == 2,
{
    let mut s = String::new();
    push_char(&mut s, digit_of(b / 16));
    push_char(&mut s, digit_of(b % 16));
    proof {
        assert(s@ =~= hex_byte_chars(b));
    }
    s
}

/// Renders the bytes as a bracketed, comma-separated decimal list, in
/// the order given, as in `[4, 3, 2, 1]`.
pub fn byte_list_decimal(bytes: &Vec<u8>) -> (s: String)
    ensures
        s@ == dec_list_chars(bytes@),
{
    let mut s = String::new();
    push_char(&mut s, '[');
    let mut i: usize = 0;
    while i < bytes.len()
        invariant
            i <= bytes@.len(),
            s@ == seq!['['] + dec_list_body(bytes@.take(i as int)),
        decreases bytes@.len() - i,
    {
        if i > 0 {
            append_str(&mut s, ", ");
        }
        let d = decimal_string(bytes[i] as u128);
        append_str(&mut s, d.as_str());
        proof {
            reveal_strlit(", ");
            assert(bytes@.take(i + 1).drop_last() =~= bytes@.take(i as int));
            assert(s@ =~= seq!['['] + dec_list_body(bytes@.take(i + 1)));
        }
        i = i + 1;
    }
    push_char(&mut s, ']');
    proof {
        assert(bytes@.take(bytes@.len() as int) =~= bytes@);
        assert(s@ =~= dec_list_chars(bytes@));
    }
    s
}

/// Renders the bytes as a bracketed, comma-separated list of two-digit
/// lowercase hexadecimal values, in the order given, as in
/// `[ef, be, ad, de]`.
pub fn byte_list_hex(bytes: &Vec<u8>) -> (s: String)
    ensures
        s@ == hex_list_chars(bytes@),
{
    let mut s = String::new();
    push_char(&mut s, '[');
    let mut i: usize = 0;
    while i < bytes.len()
        invariant
            i <= bytes@.len(),
            s@ == seq!['['] + hex_list_body(bytes@.take(i as int)),
        decreases bytes@.len() - i,
    {
        if i > 0 {
            append_str(&mut s, ", ");
        }
        let h = hex_byte_string(bytes[i]);
        append_str(&mut s, h.as_str());
        proof {
            reveal_strlit(", ");
            assert(bytes@.take(i + 1).drop_last() =~= bytes@.take(i as int));
            assert(s@ =~= seq!['['] + hex_list_body(bytes@.take(i + 1)));
        }
        i = i + 1;
    }
    push_char(&mut s, ']');
    proof {
        assert(bytes@.take(bytes@.len() as int) =~= bytes@);
        assert(s@ =~= hex_list_chars(bytes@));
    }
    s
}

/// The header line: the value in decimal followed by its type tag in
/// parentheses.
pub open spec fn header_chars(v: nat, tag: Seq<char>) -> Seq<char> {
    "Hello, Representing in following formats for: "@ + dec_chars(v) + " ("@ + tag + ")"@
}

/// The binary line: the value's minimal binary digit string.
pub open spec fn binary_line_chars(v: nat) -> Seq<char> {
    " Binary representation                      : "@ + bin_chars(v) + " "@
}

/// The little-endian decimal line for a value of byte width `n`.
pub open spec fn le_dec_line_chars(v: nat, n: nat) -> Seq<char> {
    " Little-endian byte array                   : "@ + dec_list_chars(le_bytes_of(v, n)) + " "@
}

/// The little-endian hexadecimal line for a value of byte width `n`.
pub open spec fn le_hex_line_chars(v: nat, n: nat) -> Seq<char> {
    " Hex memory (LE) with 2-digit zero padding  : "@ + hex_list_chars(le_bytes_of(v, n)) + " "@
}

/// The big-endian decimal line for a value of byte width `n`.
pub open spec fn be_dec_line_chars(v: nat, n: nat) -> Seq<char> {
    " Big-endian byte array                      : "@ + dec_list_chars(be_bytes_of(v, n)) + " "@
}

/// The big-endian hexadecimal line for a value of byte width `n`.
pub open spec fn be_hex_line_chars(v: nat, n: nat) -> Seq<char> {
    " Hex memory (BE) with 2-digit zero padding  : "@ + hex_list_chars(be_bytes_of(v, n)) + " "@
}

/// Composes the six report lines for a value: header, binary digits,
/// little-endian bytes in decimal and in padded hexadecimal, then
/// big-endian bytes in the same two forms. The value itself is only
/// read; the caller supplies the type tag shown in the header.
pub fn represent_lines<T: ByteRepr + Copy>(value: &T, type_tag: &str) -> (r: Vec<String>)
    ensures
        r@.len() == 6,
        r@[0]@ == header_chars(value.as_nat(), type_tag@),
        r@[1]@ == binary_line_chars(value.as_nat()),
        r@[2]@ == le_dec_line_chars(value.as_nat(), T::byte_width()),
        r@[3]@ == le_hex_line_chars(value.as_nat(), T::byte_width()),
        r@[4]@ == be_dec_line_chars(value.as_nat(), T::byte_width()),
        r@[5]@ == be_hex_line_chars(value.as_nat(), T::byte_width()),
{
    let v = value.as_u128();
    let le = value.to_le_bytes();
    let be = value.to_be_bytes();
    let mut r: Vec<String> = Vec::new();

    let mut header = String::new();
    append_str(&mut header, "Hello, Representing in following formats for: ");
    let dec = decimal_string(v);
    append_str(&mut header, dec.as_str());
    append_str(&mut header, " (");
    append_str(&mut header, type_tag);
    append_str(&mut header, ")");
    proof {
        assert(header@ =~= header_chars(value.as_nat(), type_tag@));
    }
    r.push(header);

    let mut line = String::new();
    append_str(&mut line, " Binary representation                      : ");
    let bin = binary_string(v);
    append_str(&mut line, bin.as_str());
    append_str(&mut line, " ");
    proof {
        assert(line@ =~= binary_line_chars(value.as_nat()));
    }
    r.push(line);

    let mut line = String::new();
    append_str(&mut line, " Little-endian byte array                   : ");
    let list = byte_list_decimal(&le);
    append_str(&mut line, list.as_str());
    append_str(&mut line, " ");
    proof {
        assert(line@ =~= le_dec_line_chars(value.as_nat(), T::byte_width()));
    }
    r.push(line);

    let mut line = String::new();
    append_str(&mut line, " Hex memory (LE) with 2-digit zero padding  : ");
    let list = byte_list_hex(&le);
    append_str(&mut line, list.as_str());
    append_str(&mut line, " ");
    proof {
        assert(line@ =~= le_hex_line_chars(value.as_nat(), T::byte_width()));
    }
    r.push(line);

    let mut line = String::new();
    append_str(&mut line, " Big-endian byte array                      : ");
    let list = byte_list_decimal(&be);
    append_str(&mut line, list.as_str());
    append_str(&mut line, " ");
    proof {
        assert(line@ =~= be_dec_line_chars(value.as_nat(), T::byte_width()));
    }
    r.push(line);

    let mut line = String::new();
    append_str(&mut line, " Hex memory (BE) with 2-digit zero padding  : ");
    let list = byte_list_hex(&be);
    append_str(&mut line, list.as_str());
    append_str(&mut line, " ");
    proof {
        assert(line@ =~= be_hex_line_chars(value.as_nat(), T::byte_width()));
    }
    r.push(line);

    r
}

} // verus!
