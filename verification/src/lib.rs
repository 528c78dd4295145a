//! Decoder for SOG containers: a zip archive that holds a JSON manifest and
//! WebP payloads, turned into the flat attribute arrays of a Gaussian-splat
//! point cloud.
//!
//! The library works on integers only. Wherever the format carries a 32-bit
//! IEEE-754 number, the library carries its bit pattern in a `u32`
//! ([`types::FloatBits`]) and moves it around untouched. The quantised
//! channels are handed out as the integers the format stores, each entry
//! with all that its value depends on, so that the caller applies one
//! real-valued map to each entry by itself and needs no knowledge of the
//! layout:
//!
//! - a [`types::Coordinate`] stands for `sign(v) * (exp(|v|) - 1)` with
//!   `v = min + (raw / 65535) * (max - min)`;
//! - a stored rotation byte `b` stands for `(b / 255 - 1/2) * 2 / sqrt(2)`, and
//!   the largest component for `sqrt(max(0, 1 - a^2 - b^2 - c^2))` over what
//!   the three bytes that it carries stand for;
//! - an opacity byte `b` stands for `ln(e / (1 - e))` with `e` the value
//!   `b / 255` kept between one millionth and one less one millionth;
//! - a table entry stands for the number whose bit pattern it is.
use vstd::prelude::*;

pub mod archive;
pub mod decode;
pub mod error;
pub mod laws;
pub mod metajson;
pub mod text;
pub mod types;
pub mod unpack;
pub mod webp;

pub use decode::decode;
pub use unpack::{unpack, unpack_then_decode};

verus! {

/// The sum of two unsigned integers that fits the type.
pub fn add(left: u64, right: u64) -> (sum: u64)
    requires
        left + right <= u64::MAX,
    ensures
        sum == left + right,
{
    left + right
}

} // verus!
