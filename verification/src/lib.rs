//! Byte-order views of fixed-width unsigned integers.
//!
//! The `repr` module defines the byte-representation capability: every
//! supported integer type can produce its little-endian and big-endian
//! byte sequences, proved against a single mathematical model of byte
//! extraction. The `text` module renders a value's decimal, binary and
//! byte-list forms as strings. The `laws` module states and proves the
//! library-wide properties: the two orderings are reversals of each
//! other, their lengths equal the byte width, and each ordering
//! reconstructs the original value.

pub mod laws;
pub mod repr;
pub mod text;

pub use repr::ByteRepr;
pub use text::represent_lines;

