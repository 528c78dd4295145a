//! The unpacked container and the decoded point cloud.
use vstd::prelude::*;
use crate::error::{ParseError, ParseFailure};

verus! {

/// The bit pattern of a 32-bit IEEE-754 number. The library never computes
/// with such a number; it only stores and moves it.
pub type FloatBits = u32;

/// Three coordinates, each as its bit pattern.
#[derive(Debug, Clone, Copy, PartialEq, Eq, Structural)]
pub struct Vector3 {
    pub x: FloatBits,
    pub y: FloatBits,
    pub z: FloatBits,
}

/// The text of the error for a bounds list that is too short.
pub open spec fn short_vector_text() -> Seq<char> {
    "Vector must have at least 3 elements"@
}

/// The text of the error for a codebook that is too short.
pub open spec fn short_codebook_text() -> Seq<char> {
    "Codebook must have at least 256 elements"@
}

impl Vector3 {
    pub fn new(x: FloatBits, y: FloatBits, z: FloatBits) -> (v: Self)
        ensures
            v == (Vector3 { x, y, z }),
    {
        Self { x, y, z }
    }

    /// The component along axis `c`: 0 is x, 1 is y, any other is z.
    pub open spec fn axis(self, c: int) -> FloatBits {
        if c == 0 {
            self.x
        } else if c == 1 {
            self.y
        } else {
            self.z
        }
    }

    /// The vector that a list of at least three entries stands for: its first
    /// three entries. Further entries are ignored.
    pub open spec fn of_list(value: Seq<FloatBits>) -> Vector3 {
        Vector3 { x: value[0], y: value[1], z: value[2] }
    }

    /// Takes the first three entries of `value`; fails on a shorter list.
    pub fn try_from(value: Vec<FloatBits>) -> (r: Result<Self, ParseError>)
        ensures
            value@.len() >= 3 ==> r == Ok::<Self, ParseError>(Self::of_list(value@)),
            value@.len() < 3 ==> r is Err && r->Err_0@ == ParseFailure::ParseVector(
                short_vector_text(),
            ),
    {
        if value.len() >= 3 {
            Ok(Self::new(value[0], value[1], value[2]))
        } else {
            Err(ParseError::ParseVector("Vector must have at least 3 elements".to_owned()))
        }
    }
}

impl Default for Vector3 {
    /// The vector whose three bit patterns are zero, which is the origin.
    fn default() -> (v: Self)
        ensures
            v == (Vector3 { x: 0, y: 0, z: 0 }),
    {
        Vector3 { x: 0, y: 0, z: 0 }
    }
}

/// A lookup table of exactly 256 entries, one for each value of a byte.
#[derive(Debug, Clone)]
pub struct Codebook(pub [FloatBits; 256]);

impl View for Codebook {
    type V = Seq<FloatBits>;

    open spec fn view(&self) -> Seq<FloatBits> {
        self.0@
    }
}

impl Codebook {
    /// Takes the first 256 entries of `value`; fails on a shorter list.
    pub fn try_from(value: &[FloatBits]) -> (r: Result<Self, ParseError>)
        ensures
            value@.len() >= 256 ==> r is Ok && r->Ok_0@ == value@.subrange(0, 256),
            value@.len() < 256 ==> r is Err && r->Err_0@ == ParseFailure::ParseCodebook(
                short_codebook_text(),
            ),
    {
        if value.len() >= 256 {
            let mut arr: [FloatBits; 256] = [0u32; 256];
            let mut i: usize = 0;
            while i < 256
                invariant
                    i <= 256,
                    value@.len() >= 256,
                    forall|j: int| 0 <= j < i ==> arr@[j] == value@[j],
                decreases 256 - i,
            {
                arr[i] = value[i];
                i = i + 1;
            }
            assert(arr@ =~= value@.subrange(0, 256));
            Ok(Codebook(arr))
        } else {
            Err(ParseError::ParseCodebook("Codebook must have at least 256 elements".to_owned()))
        }
    }

    /// The entry that the byte `index` selects. Every byte selects one: the
    /// table has an entry for each of the 256 values.
    pub fn lookup(&self, index: u8) -> (value: FloatBits)
        ensures
            value == self@[index as int],
            self@.len() == 256,
    {
        self.0[index as usize]
    }
}

/// The payloads a decoder reads are kept as the archive holds them.
pub type ImageData = Vec<u8>;

/// The position group: the bounds of the log-domain range, and the two byte
/// planes of the 16-bit quantised coordinates.
#[derive(Debug, Clone)]
pub struct Means {
    pub mins: Vector3,
    pub maxs: Vector3,
    pub means_u: ImageData,
    pub means_l: ImageData,
}

/// The rotation group: one payload.
#[derive(Debug, Clone)]
pub struct Quats(pub ImageData);

/// The scale group.
#[derive(Debug, Clone)]
pub struct Scales {
    pub codebook: Codebook,
    pub scales: ImageData,
}

/// The base colour and opacity group.
#[derive(Debug, Clone)]
pub struct Sh0 {
    pub codebook: Codebook,
    pub sh0: ImageData,
}

/// The higher-order colour group: a palette of centroids and a label per point.
#[derive(Debug, Clone)]
pub struct ShN {
    pub count: i32,
    pub bands: i32,
    pub codebook: Codebook,
    pub labels: ImageData,
    pub centroids: ImageData,
}

/// A container after unpacking: the manifest's parameters and the payloads
/// still encoded.
#[derive(Debug, Clone)]
pub struct SogDataV2 {
    pub count: u32,
    pub antialias: bool,
    pub means: Means,
    pub scales: Scales,
    pub quats: Quats,
    pub sh0: Sh0,
    pub sh_n: Option<ShN>,
}

/// One coordinate of a position: its 16-bit quantised value, and the bounds
/// of its axis in the log domain, between which the value interpolates.
#[derive(Debug, Clone, Copy, PartialEq, Eq, Structural)]
pub struct Coordinate {
    pub raw: u16,
    pub min: FloatBits,
    pub max: FloatBits,
}

/// One slot of a rotation.
#[derive(Debug, Clone, Copy, PartialEq, Eq, Structural)]
pub enum QuatSlot {
    /// One of the three components that the format stores, as its byte.
    Stored(u8),
    /// The component that the format leaves out, to be had by the unit
    /// length of the whole from the three stored bytes of the same point,
    /// which it carries.
    Largest(u8, u8, u8),
}

/// One entry of a colour.
#[derive(Debug, Clone, Copy, PartialEq, Eq, Structural)]
pub enum ColorSlot {
    /// A colour channel: an entry of the table.
    Table(FloatBits),
    /// The opacity of the point, as its byte.
    Opacity(u8),
}

/// The decoded point cloud, each array laid out point by point.
#[derive(Debug, Clone)]
pub struct Splat {
    pub count: usize,
    pub antialias: bool,
    /// 0 without higher-order colour, else the number of bands.
    pub sh_degree: usize,
    /// Three coordinates per point, in the order x, y, z.
    pub position: Vec<Coordinate>,
    /// Four slots per point, in the order x, y, z, w.
    pub rotation: Vec<QuatSlot>,
    /// Three table entries per point.
    pub scale: Vec<FloatBits>,
    /// Per point red, green and blue, then the opacity.
    pub color: Vec<ColorSlot>,
    /// Per point and colour channel, one table entry for each coefficient.
    pub sh: Option<Vec<FloatBits>>,
}

} // verus!
