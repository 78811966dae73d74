use byte_repr::text::{
    binary_string, byte_list_decimal, byte_list_hex, decimal_string, hex_byte_string,
};
use byte_repr::{represent_lines, ByteRepr};

// Concrete scenarios for the byte orderings.

#[test]
fn scenario_u32_le_be() {
    let val: u32 = 0x01020304;
    assert_eq!(ByteRepr::to_le_bytes(&val), vec![0x04, 0x03, 0x02, 0x01]);
    assert_eq!(ByteRepr::to_be_bytes(&val), vec![0x01, 0x02, 0x03, 0x04]);
}

#[test]
fn scenario_u8_single_byte() {
    let val: u8 = 0x12;
    assert_eq!(ByteRepr::to_le_bytes(&val), vec![0x12]);
    assert_eq!(ByteRepr::to_be_bytes(&val), vec![0x12]);
    assert_eq!(ByteRepr::to_le_bytes(&val), ByteRepr::to_be_bytes(&val));
}

#[test]
fn scenario_u16_le_be() {
    let val: u16 = 0x1234;
    assert_eq!(ByteRepr::to_le_bytes(&val), vec![0x34, 0x12]);
    assert_eq!(ByteRepr::to_be_bytes(&val), vec![0x12, 0x34]);
}

#[test]
fn scenario_u32_deadbeef_hex() {
    let val: u32 = 0xDEADBEEF;
    let le = ByteRepr::to_le_bytes(&val);
    assert_eq!(le, vec![0xEF, 0xBE, 0xAD, 0xDE]);
    assert_eq!(byte_list_hex(&le), "[ef, be, ad, de]");
}

#[test]
fn scenario_u128_max() {
    let val: u128 = u128::MAX;
    let le = ByteRepr::to_le_bytes(&val);
    let be = ByteRepr::to_be_bytes(&val);
    assert_eq!(le.len(), 16);
    assert_eq!(be.len(), 16);
    assert!(le.iter().all(|&b| b == 0xFF));
    assert!(be.iter().all(|&b| b == 0xFF));
}

// The reversal law on sample values of every supported width.

#[test]
fn reversal_law_samples() {
    let v: u16 = 0xBEEF;
    let mut le = ByteRepr::to_le_bytes(&v);
    le.reverse();
    assert_eq!(le, ByteRepr::to_be_bytes(&v));

    let v: u32 = 0x12345678;
    let mut le = ByteRepr::to_le_bytes(&v);
    le.reverse();
    assert_eq!(le, ByteRepr::to_be_bytes(&v));

    let v: u64 = 0x123456789ABCDEF0;
    let mut le = ByteRepr::to_le_bytes(&v);
    le.reverse();
    assert_eq!(le, ByteRepr::to_be_bytes(&v));

    let v: u128 = 0x1234567890ABCDEF1234567890ABCDEF;
    let mut le = ByteRepr::to_le_bytes(&v);
    le.reverse();
    assert_eq!(le, ByteRepr::to_be_bytes(&v));

    let v: usize = 0xDEADCAFE;
    let mut le = ByteRepr::to_le_bytes(&v);
    le.reverse();
    assert_eq!(le, ByteRepr::to_be_bytes(&v));
}

// Length invariant on sample values.

#[test]
fn length_invariant_samples() {
    assert_eq!(ByteRepr::to_le_bytes(&0u8).len(), 1);
    assert_eq!(ByteRepr::to_be_bytes(&0u8).len(), 1);
    assert_eq!(ByteRepr::to_le_bytes(&0u16).len(), 2);
    assert_eq!(ByteRepr::to_be_bytes(&0u16).len(), 2);
    assert_eq!(ByteRepr::to_le_bytes(&0u32).len(), 4);
    assert_eq!(ByteRepr::to_be_bytes(&0u32).len(), 4);
    assert_eq!(ByteRepr::to_le_bytes(&0u64).len(), 8);
    assert_eq!(ByteRepr::to_be_bytes(&0u64).len(), 8);
    assert_eq!(ByteRepr::to_le_bytes(&0u128).len(), 16);
    assert_eq!(ByteRepr::to_be_bytes(&0u128).len(), 16);
    assert_eq!(ByteRepr::to_le_bytes(&0usize).len(), 8);
    assert_eq!(ByteRepr::to_be_bytes(&0usize).len(), 8);
}

// Reconstruction: reading the bytes back gives the value.

#[test]
fn reconstruction_u64() {
    let val: u64 = 0x123456789ABCDEF0;
    let le = ByteRepr::to_le_bytes(&val);
    let mut from_le: u64 = 0;
    for (i, &b) in le.iter().enumerate() {
        from_le += (b as u64) << (8 * i);
    }
    assert_eq!(from_le, val);

    let be = ByteRepr::to_be_bytes(&val);
    let mut from_be: u64 = 0;
    for &b in be.iter() {
        from_be = (from_be << 8) + b as u64;
    }
    assert_eq!(from_be, val);
}

// Determinism: two calls on the same value agree byte for byte.

#[test]
fn determinism_repeated_calls() {
    let val: u64 = 0x0123456789ABCDEF;
    assert_eq!(ByteRepr::to_le_bytes(&val), ByteRepr::to_le_bytes(&val));
    assert_eq!(ByteRepr::to_be_bytes(&val), ByteRepr::to_be_bytes(&val));
    let lines1 = represent_lines(&val, "u64");
    let lines2 = represent_lines(&val, "u64");
    assert_eq!(lines1, lines2);
}

// No mutation: the value handed to the formatter is unchanged.

#[test]
fn no_mutation_of_value() {
    let val: u32 = 0xDEADBEEF;
    let before = val;
    represent_lines(&val, "u32");
    assert_eq!(val, before);
}

// Exact expected values for the text renderings.

#[test]
fn decimal_string_values() {
    assert_eq!(decimal_string(0), "0");
    assert_eq!(decimal_string(7), "7");
    assert_eq!(decimal_string(4294967295), "4294967295");
    assert_eq!(decimal_string(u128::MAX), "340282366920938463463374607431768211455");
}

#[test]
fn binary_string_values() {
    assert_eq!(binary_string(0), "0");
    assert_eq!(binary_string(1), "1");
    assert_eq!(binary_string(42), "101010");
    assert_eq!(binary_string(255), "11111111");
}

#[test]
fn hex_byte_string_values() {
    assert_eq!(hex_byte_string(0x00), "00");
    assert_eq!(hex_byte_string(0x0a), "0a");
    assert_eq!(hex_byte_string(0xde), "de");
    assert_eq!(hex_byte_string(0xff), "ff");
}

#[test]
fn byte_list_values() {
    assert_eq!(byte_list_decimal(&vec![]), "[]");
    assert_eq!(byte_list_decimal(&vec![7]), "[7]");
    assert_eq!(byte_list_decimal(&vec![4, 3, 2, 1]), "[4, 3, 2, 1]");
    assert_eq!(byte_list_hex(&vec![]), "[]");
    assert_eq!(byte_list_hex(&vec![0xef]), "[ef]");
    assert_eq!(byte_list_hex(&vec![0xef, 0xbe, 0xad, 0xde]), "[ef, be, ad, de]");
}

#[test]
fn represent_lines_u8_content() {
    let val: u8 = 255;
    let lines = represent_lines(&val, "u8");
    assert_eq!(lines.len(), 6);
    assert_eq!(lines[0], "Hello, Representing in following formats for: 255 (u8)");
    assert_eq!(lines[1], " Binary representation                      : 11111111 ");
    assert_eq!(lines[2], " Little-endian byte array                   : [255] ");
    assert_eq!(lines[3], " Hex memory (LE) with 2-digit zero padding  : [ff] ");
    assert_eq!(lines[4], " Big-endian byte array                      : [255] ");
    assert_eq!(lines[5], " Hex memory (BE) with 2-digit zero padding  : [ff] ");
}

#[test]
fn represent_lines_u16_content() {
    let val: u16 = 0x1234;
    let lines = represent_lines(&val, "u16");
    assert_eq!(lines[0], "Hello, Representing in following formats for: 4660 (u16)");
    assert_eq!(lines[1], " Binary representation                      : 1001000110100 ");
    assert_eq!(lines[2], " Little-endian byte array                   : [52, 18] ");
    assert_eq!(lines[3], " Hex memory (LE) with 2-digit zero padding  : [34, 12] ");
    assert_eq!(lines[4], " Big-endian byte array                      : [18, 52] ");
    assert_eq!(lines[5], " Hex memory (BE) with 2-digit zero padding  : [12, 34] ");
}
