//! Conversions between integers and digit sequences.

pub mod from_ints;
pub mod to_ints;
