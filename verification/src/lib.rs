//! A color-model interchange library.
//!
//! The verified core is the integer-backed CMYK encoding: construction,
//! component access and mutation, and the bit-exact packed, byte-array and
//! hexadecimal renderings of a color. Each operation carries a contract that
//! pins its result down to the field values it reads and writes.

pub mod cmyk;

pub use cmyk::Cmyk;
