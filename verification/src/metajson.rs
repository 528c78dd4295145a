//! The manifest as its JSON states it, before any check.
//!
//! Reading JSON text is left to the caller, who fills these records from the
//! `meta.json` entry; numbers with a fraction arrive as bit patterns.
use vstd::prelude::*;
use crate::types::FloatBits;

verus! {

/// The whole manifest.
#[derive(Debug, Clone)]
pub struct MetaJsonType {
    pub version: i32,
    pub count: u32,
    pub antialias: Option<bool>,
    pub means: Means,
    pub scales: Scales,
    pub quats: Quats,
    pub sh0: Sh0,
    /// The member `shN`.
    pub sh_n: Option<ShN>,
}

/// Positions: bounds, and the names of the low and the high byte plane.
#[derive(Debug, Clone)]
pub struct Means {
    pub mins: Vec<FloatBits>,
    pub maxs: Vec<FloatBits>,
    pub files: Vec<String>,
}

/// Scales: the table and the name of the payload.
#[derive(Debug, Clone)]
pub struct Scales {
    pub codebook: Vec<FloatBits>,
    pub files: Vec<String>,
}

/// Rotations: the name of the payload.
#[derive(Debug, Clone)]
pub struct Quats {
    pub files: Vec<String>,
}

/// Base colour: the table and the name of the payload.
#[derive(Debug, Clone)]
pub struct Sh0 {
    pub codebook: Vec<FloatBits>,
    pub files: Vec<String>,
}

/// Higher-order colour: palette size, bands, the table, and the names of the
/// centroid and the label payload.
#[derive(Debug, Clone)]
pub struct ShN {
    pub count: i32,
    pub bands: i32,
    pub codebook: Vec<FloatBits>,
    pub files: Vec<String>,
}

} // verus!
