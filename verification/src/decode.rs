//! The second phase: the attribute decoders, first on pixel buffers, then on
//! the payloads of a container, and the decoding of a whole container.
use vstd::prelude::*;
use vstd::string::StringExecFns;
use crate::error::{decoded, DecodeError, DecodeFailure, DecodeResult, Error, Failure};
use crate::text::{decimal, two_numbers, with_number, with_two_numbers};
use crate::types::{
    Codebook, ColorSlot, Coordinate, FloatBits, Means, QuatSlot, Quats, Scales, Sh0, ShN,
    SogDataV2, Splat, Vector3,
};
use crate::webp::{pixels_of, read_webp, unsized_text};

verus! {

/// The 16-bit number with the given high and low byte.
fn join_bytes(high: u8, low: u8) -> (v: u16)
    ensures
        v == high as int * 256 + low as int,
{
    let h: u16 = high as u16;
    let l: u16 = low as u16;
    assert((h << 8) | l == h * 256 + l) by (bit_vector)
        requires
            h < 256,
            l < 256,
    ;
    (h << 8) | l
}

// ---------------------------------------------------------------- positions

/// Entry `k` of the position array: coordinate `k % 3` of point `k / 3`. Its
/// value is the 16-bit number whose high byte is in `upper` and whose low
/// byte is in `lower`, both at channel `k % 3` of pixel `k / 3`; its bounds
/// are those of axis `k % 3`.
pub open spec fn position_entry(
    lower: Seq<u8>,
    upper: Seq<u8>,
    mins: Vector3,
    maxs: Vector3,
    k: int,
) -> Coordinate {
    let at = (k / 3) * 4 + k % 3;
    Coordinate {
        raw: (upper[at] as int * 256 + lower[at] as int) as u16,
        min: mins.axis(k % 3),
        max: maxs.axis(k % 3),
    }
}

/// The quantised positions of `count` points, or the failure owed.
pub open spec fn positions_of(
    lower: Seq<u8>,
    upper: Seq<u8>,
    mins: Vector3,
    maxs: Vector3,
    count: nat,
) -> Result<Seq<Coordinate>, DecodeFailure> {
    if lower.len() != upper.len() {
        Err(DecodeFailure::InvalidSize("Lower and upper pixels have different length"@))
    } else if lower.len() % 4 != 0 {
        Err(
            DecodeFailure::InvalidSize(
                "lower image size cannot be divided by 4: "@ + decimal(lower.len()),
            ),
        )
    } else if lower.len() < 4 * count {
        Err(
            DecodeFailure::InvalidSize(
                "position images hold too few pixels for point count: "@ + decimal(count),
            ),
        )
    } else {
        Ok(Seq::new(3 * count, |k: int| position_entry(lower, upper, mins, maxs, k)))
    }
}

/// Joins the two byte planes into the 16-bit quantised coordinates of the
/// first `count` points, each with the bounds of its axis. Pixels beyond
/// `count` are ignored.
pub fn positions_from_pixels(
    lower: &[u8],
    upper: &[u8],
    mins: &Vector3,
    maxs: &Vector3,
    count: usize,
) -> (r: DecodeResult<Vec<Coordinate>>)
    ensures
        decoded(r) == positions_of(lower@, upper@, *mins, *maxs, count as nat),
{
    if lower.len() != upper.len() {
        return Err(
            DecodeError::InvalidSize("Lower and upper pixels have different length".to_owned()),
        );
    }
    if lower.len() % 4 != 0 {
        return Err(
            DecodeError::InvalidSize(
                with_number("lower image size cannot be divided by 4: ", lower.len()),
            ),
        );
    }
    if lower.len() / 4 < count {
        return Err(
            DecodeError::InvalidSize(
                with_number("position images hold too few pixels for point count: ", count),
            ),
        );
    }
    let mut out: Vec<Coordinate> = Vec::with_capacity(count * 3);
    let mut i: usize = 0;
    while i < count
        invariant
            i <= count,
            4 * count <= lower.len(),
            lower.len() == upper.len(),
            out@ == Seq::new(
                3 * (i as nat),
                |k: int| position_entry(lower@, upper@, *mins, *maxs, k),
            ),
        decreases count - i,
    {
        let x = join_bytes(upper[i * 4], lower[i * 4]);
        let y = join_bytes(upper[i * 4 + 1], lower[i * 4 + 1]);
        let z = join_bytes(upper[i * 4 + 2], lower[i * 4 + 2]);
        out.push(Coordinate { raw: x, min: mins.x, max: maxs.x });
        out.push(Coordinate { raw: y, min: mins.y, max: maxs.y });
        out.push(Coordinate { raw: z, min: mins.z, max: maxs.z });
        i = i + 1;
        assert(out@ =~= Seq::new(
            3 * (i as nat),
            |k: int| position_entry(lower@, upper@, *mins, *maxs, k),
        ));
    }
    Ok(out)
}

// ---------------------------------------------------------------- rotations

/// The least byte that tags a rotation: the tag is the byte minus this.
pub const MODE_BASE: u8 = 252;

/// The first of `count` points whose tag byte is below [`MODE_BASE`], if any.
pub open spec fn first_invalid_mode(pixels: Seq<u8>, count: nat) -> Option<nat>
    decreases count,
{
    if count == 0 {
        None
    } else {
        match first_invalid_mode(pixels, (count - 1) as nat) {
            Some(i) => Some(i),
            None => if pixels[(count - 1) * 4 + 3] < MODE_BASE {
                Some((count - 1) as nat)
            } else {
                None
            },
        }
    }
}

/// Entry `k` of the rotation array: slot `k % 4` of point `k / 4`. The tag
/// names the slot of the component that was left out, which carries the
/// three stored bytes of the point; those bytes fill the other slots in
/// their order.
pub open spec fn rotation_entry(pixels: Seq<u8>, k: int) -> QuatSlot {
    let base = (k / 4) * 4;
    let slot = k % 4;
    let mode = pixels[base + 3] - MODE_BASE;
    if slot == mode {
        QuatSlot::Largest(pixels[base], pixels[base + 1], pixels[base + 2])
    } else if slot < mode {
        QuatSlot::Stored(pixels[base + slot])
    } else {
        QuatSlot::Stored(pixels[base + slot - 1])
    }
}

/// The text that reports the tag byte `m` of point `index` as invalid.
pub open spec fn invalid_mode_text(m: u8, index: nat) -> Seq<char> {
    two_numbers("invalid rotation mode(m<252): "@, m as nat, ", index: "@, index)
}

/// The rotations of `count` points, or the failure owed.
pub open spec fn rotations_of(pixels: Seq<u8>, count: nat) -> Result<Seq<QuatSlot>, DecodeFailure> {
    if pixels.len() < 4 * count {
        Err(
            DecodeFailure::InvalidData(
                "rotation image holds too few pixels for point count: "@ + decimal(count),
            ),
        )
    } else {
        match first_invalid_mode(pixels, count) {
            Some(i) => Err(DecodeFailure::InvalidData(invalid_mode_text(pixels[i as int * 4 + 3], i))),
            None => Ok(Seq::new(4 * count, |k: int| rotation_entry(pixels, k))),
        }
    }
}

/// Lays out the rotation slots of the first `count` points. A tag byte below
/// [`MODE_BASE`] is an error that names the byte and the point; it is never
/// replaced by a valid tag.
pub fn rotations_from_pixels(pixels: &[u8], count: usize) -> (r: DecodeResult<Vec<QuatSlot>>)
    ensures
        decoded(r) == rotations_of(pixels@, count as nat),
{
    if pixels.len() / 4 < count {
        return Err(
            DecodeError::InvalidData(
                with_number("rotation image holds too few pixels for point count: ", count),
            ),
        );
    }
    let mut out: Vec<QuatSlot> = Vec::with_capacity(count * 4);
    let mut i: usize = 0;
    while i < count
        invariant
            i <= count,
            4 * count <= pixels.len(),
            first_invalid_mode(pixels@, i as nat) is None,
            out@ == Seq::new(4 * (i as nat), |k: int| rotation_entry(pixels@, k)),
        decreases count - i,
    {
        let a = pixels[i * 4];
        let b = pixels[i * 4 + 1];
        let c = pixels[i * 4 + 2];
        let m = pixels[i * 4 + 3];
        if m < MODE_BASE {
            proof {
                lemma_first_invalid_found(pixels@, count as nat, i as nat);
            }
            return Err(
                DecodeError::InvalidData(
                    with_two_numbers("invalid rotation mode(m<252): ", m as usize, ", index: ", i),
                ),
            );
        }
        let mode = m - MODE_BASE;
        if mode == 0 {
            out.push(QuatSlot::Largest(a, b, c));
            out.push(QuatSlot::Stored(a));
            out.push(QuatSlot::Stored(b));
            out.push(QuatSlot::Stored(c));
        } else if mode == 1 {
            out.push(QuatSlot::Stored(a));
            out.push(QuatSlot::Largest(a, b, c));
            out.push(QuatSlot::Stored(b));
            out.push(QuatSlot::Stored(c));
        } else if mode == 2 {
            out.push(QuatSlot::Stored(a));
            out.push(QuatSlot::Stored(b));
            out.push(QuatSlot::Largest(a, b, c));
            out.push(QuatSlot::Stored(c));
        } else {
            out.push(QuatSlot::Stored(a));
            out.push(QuatSlot::Stored(b));
            out.push(QuatSlot::Stored(c));
            out.push(QuatSlot::Largest(a, b, c));
        }
        i = i + 1;
        assert(out@ =~= Seq::new(4 * (i as nat), |k: int| rotation_entry(pixels@, k)));
    }
    Ok(out)
}

/// If no point before `i` has an invalid tag and point `i` has one, then `i`
/// is the first such point among any `count` points that include it.
proof fn lemma_first_invalid_found(pixels: Seq<u8>, count: nat, i: nat)
    requires
        i < count,
        first_invalid_mode(pixels, i) is None,
        pixels[i as int * 4 + 3] < MODE_BASE,
    ensures
        first_invalid_mode(pixels, count) == Some(i),
    decreases count,
{
    if count == i + 1 {
    } else {
        lemma_first_invalid_found(pixels, (count - 1) as nat, i);
    }
}

// ------------------------------------------------------------------- scales

/// Entry `k` of the scale array: the table entry that channel `k % 3` of
/// pixel `k / 3` selects.
pub open spec fn scale_entry(codebook: Seq<FloatBits>, pixels: Seq<u8>, k: int) -> FloatBits {
    codebook[pixels[(k / 3) * 4 + k % 3] as int]
}

/// The scales of `count` points, or the failure owed.
pub open spec fn scales_of(codebook: Seq<FloatBits>, pixels: Seq<u8>, count: nat) -> Result<
    Seq<FloatBits>,
    DecodeFailure,
> {
    if pixels.len() % 4 != 0 {
        Err(
            DecodeFailure::InvalidData(
                "scale image size cannot be divided by 4: "@ + decimal(pixels.len()),
            ),
        )
    } else if pixels.len() < 4 * count {
        Err(
            DecodeFailure::InvalidData(
                "scale image holds too few pixels for point count: "@ + decimal(count),
            ),
        )
    } else {
        Ok(Seq::new(3 * count, |k: int| scale_entry(codebook, pixels, k)))
    }
}

/// Looks the first three channels of each of the first `count` pixels up in
/// the table.
pub fn scales_from_pixels(codebook: &Codebook, pixels: &[u8], count: usize) -> (r: DecodeResult<
    Vec<FloatBits>,
>)
    ensures
        decoded(r) == scales_of(codebook@, pixels@, count as nat),
{
    if pixels.len() % 4 != 0 {
        return Err(
            DecodeError::InvalidData(
                with_number("scale image size cannot be divided by 4: ", pixels.len()),
            ),
        );
    }
    if pixels.len() / 4 < count {
        return Err(
            DecodeError::InvalidData(
                with_number("scale image holds too few pixels for point count: ", count),
            ),
        );
    }
    let mut out: Vec<FloatBits> = Vec::with_capacity(count * 3);
    let mut i: usize = 0;
    while i < count
        invariant
            i <= count,
            4 * count <= pixels.len(),
            out@ == Seq::new(3 * (i as nat), |k: int| scale_entry(codebook@, pixels@, k)),
        decreases count - i,
    {
        out.push(codebook.lookup(pixels[i * 4]));
        out.push(codebook.lookup(pixels[i * 4 + 1]));
        out.push(codebook.lookup(pixels[i * 4 + 2]));
        i = i + 1;
        assert(out@ =~= Seq::new(3 * (i as nat), |k: int| scale_entry(codebook@, pixels@, k)));
    }
    Ok(out)
}

// ------------------------------------------------------------------- colour

/// Entry `k` of the colour array. Channel 3 of a pixel is the opacity byte,
/// handed on as it is; each other channel selects a table entry.
pub open spec fn color_entry(codebook: Seq<FloatBits>, pixels: Seq<u8>, k: int) -> ColorSlot {
    if k % 4 == 3 {
        ColorSlot::Opacity(pixels[k])
    } else {
        ColorSlot::Table(codebook[pixels[k] as int])
    }
}

/// The colours of `count` points, or the failure owed.
pub open spec fn colors_of(codebook: Seq<FloatBits>, pixels: Seq<u8>, count: nat) -> Result<
    Seq<ColorSlot>,
    DecodeFailure,
> {
    if pixels.len() % 4 != 0 {
        Err(
            DecodeFailure::InvalidData(
                "color image size cannot be divided by 4: "@ + decimal(pixels.len()),
            ),
        )
    } else if pixels.len() < 4 * count {
        Err(
            DecodeFailure::InvalidData(
                "color image holds too few pixels for point count: "@ + decimal(count),
            ),
        )
    } else {
        Ok(Seq::new(4 * count, |k: int| color_entry(codebook, pixels, k)))
    }
}

/// Looks the three colour channels of each of the first `count` pixels up in
/// the table and keeps the opacity byte beside them.
pub fn colors_from_pixels(codebook: &Codebook, pixels: &[u8], count: usize) -> (r: DecodeResult<
    Vec<ColorSlot>,
>)
    ensures
        decoded(r) == colors_of(codebook@, pixels@, count as nat),
{
    if pixels.len() % 4 != 0 {
        return Err(
            DecodeError::InvalidData(
                with_number("color image size cannot be divided by 4: ", pixels.len()),
            ),
        );
    }
    if pixels.len() / 4 < count {
        return Err(
            DecodeError::InvalidData(
                with_number("color image holds too few pixels for point count: ", count),
            ),
        );
    }
    let mut out: Vec<ColorSlot> = Vec::with_capacity(count * 4);
    let mut i: usize = 0;
    while i < count
        invariant
            i <= count,
            4 * count <= pixels.len(),
            out@ == Seq::new(4 * (i as nat), |k: int| color_entry(codebook@, pixels@, k)),
        decreases count - i,
    {
        out.push(ColorSlot::Table(codebook.lookup(pixels[i * 4])));
        out.push(ColorSlot::Table(codebook.lookup(pixels[i * 4 + 1])));
        out.push(ColorSlot::Table(codebook.lookup(pixels[i * 4 + 2])));
        out.push(ColorSlot::Opacity(pixels[i * 4 + 3]));
        i = i + 1;
        assert(out@ =~= Seq::new(4 * (i as nat), |k: int| color_entry(codebook@, pixels@, k)));
    }
    Ok(out)
}

// ------------------------------------------------------ spherical harmonics

/// The number of coefficients per colour channel that `bands` bands carry.
/// Only one, two or three bands exist.
pub open spec fn coeff_count(bands: int) -> Option<nat> {
    if bands == 1 {
        Some(3)
    } else if bands == 2 {
        Some(8)
    } else if bands == 3 {
        Some(15)
    } else {
        None
    }
}

/// `n` written in base ten, with a minus sign where it is negative.
pub open spec fn signed_decimal(n: int) -> Seq<char> {
    if n < 0 {
        "-"@ + decimal((-n) as nat)
    } else {
        decimal(n as nat)
    }
}

/// The text that reports the band count `bands` as invalid.
pub open spec fn invalid_bands_text(bands: int) -> Seq<char> {
    "invalid bands count: "@ + signed_decimal(bands)
}

/// Checks the band count and gives the number of coefficients per channel.
/// This looks at the number alone: no payload is read for it.
pub fn coeff_count_of(bands: i32) -> (r: DecodeResult<usize>)
    ensures
        match coeff_count(bands as int) {
            Some(n) => r == Ok::<usize, DecodeError>(n as usize),
            None => r is Err && r->Err_0@ == DecodeFailure::InvalidSize(
                invalid_bands_text(bands as int),
            ),
        },
{
    if bands == 1 {
        Ok(3)
    } else if bands == 2 {
        Ok(8)
    } else if bands == 3 {
        Ok(15)
    } else if bands < 0 {
        let magnitude: i64 = -(bands as i64);
        let head = "invalid bands count: ".to_owned().concat("-");
        let text = with_number(head.as_str(), magnitude as usize);
        assert(text@ =~= invalid_bands_text(bands as int));
        Err(DecodeError::InvalidSize(text))
    } else {
        Err(DecodeError::InvalidSize(with_number("invalid bands count: ", bands as usize)))
    }
}

/// The palette index of point `i`: the 16-bit number whose low byte is
/// channel 0 and whose high byte is channel 1 of label pixel `i`.
pub open spec fn palette_index(labels: Seq<u8>, i: int) -> int {
    labels[i * 4] as int + 256 * (labels[i * 4 + 1] as int)
}

/// Whether the centroid table has all `coeffs` coefficient triples of the
/// palette entry `palette`.
pub open spec fn palette_in_table(centroids: Seq<u8>, coeffs: nat, palette: int) -> bool {
    (palette + 1) * coeffs * 3 <= centroids.len()
}

/// The first of `count` points whose palette index is outside the table, if any.
pub open spec fn first_outside_palette(
    centroids: Seq<u8>,
    labels: Seq<u8>,
    coeffs: nat,
    count: nat,
) -> Option<nat>
    decreases count,
{
    if count == 0 {
        None
    } else {
        match first_outside_palette(centroids, labels, coeffs, (count - 1) as nat) {
            Some(i) => Some(i),
            None => if !palette_in_table(centroids, coeffs, palette_index(labels, count - 1)) {
                Some((count - 1) as nat)
            } else {
                None
            },
        }
    }
}

/// The coefficient `coeff` of colour channel `ch` of point `i`: the table
/// entry selected by the centroid byte at
/// `(palette * coeffs + coeff) * 3 + ch`.
pub open spec fn sh_value(
    codebook: Seq<FloatBits>,
    centroids: Seq<u8>,
    labels: Seq<u8>,
    coeffs: nat,
    i: int,
    ch: int,
    coeff: int,
) -> FloatBits {
    codebook[centroids[(palette_index(labels, i) * coeffs + coeff) * 3 + ch] as int]
}

/// Entry `k` of the coefficient array, which holds the value of point `i`,
/// channel `ch` and coefficient `coeff` at `(i * 3 + ch) * coeffs + coeff`.
pub open spec fn sh_entry(
    codebook: Seq<FloatBits>,
    centroids: Seq<u8>,
    labels: Seq<u8>,
    coeffs: nat,
    k: int,
) -> FloatBits {
    sh_value(
        codebook,
        centroids,
        labels,
        coeffs,
        k / (3 * (coeffs as int)),
        (k / (coeffs as int)) % 3,
        k % (coeffs as int),
    )
}

/// The text that reports the palette index of point `index` as outside the table.
pub open spec fn outside_palette_text(palette: int, index: nat) -> Seq<char> {
    two_numbers("palette index outside the centroid table: "@, palette as nat, ", index: "@, index)
}

/// The coefficients of `count` points, or the failure owed. The band count is
/// judged first, before either pixel buffer.
pub open spec fn sh_of(
    bands: int,
    codebook: Seq<FloatBits>,
    centroids: Seq<u8>,
    labels: Seq<u8>,
    count: nat,
) -> Result<Seq<FloatBits>, DecodeFailure> {
    match coeff_count(bands) {
        None => Err(DecodeFailure::InvalidSize(invalid_bands_text(bands))),
        Some(coeffs) => if centroids.len() % 3 != 0 || labels.len() % 4 != 0 {
            Err(DecodeFailure::InvalidSize("invalid image dimensions"@))
        } else if labels.len() < 4 * count {
            Err(
                DecodeFailure::InvalidSize(
                    "labels image holds too few pixels for point count: "@ + decimal(count),
                ),
            )
        } else if count * coeffs * 3 > usize::MAX {
            Err(
                DecodeFailure::InvalidSize(
                    "coefficients exceed the addressable size for point count: "@ + decimal(count),
                ),
            )
        } else {
            match first_outside_palette(centroids, labels, coeffs, count) {
                Some(i) => Err(
                    DecodeFailure::InvalidData(
                        outside_palette_text(palette_index(labels, i as int), i),
                    ),
                ),
                None => Ok(
                    Seq::new(
                        count * coeffs * 3,
                        |k: int| sh_entry(codebook, centroids, labels, coeffs, k),
                    ),
                ),
            }
        }
    }
}

/// Where the value of point `i`, channel `ch` and coefficient `coeff` stands
/// in the coefficient array, read back: the entry at
/// `(i * 3 + ch) * coeffs + coeff` is that value.
pub proof fn lemma_sh_entry_at(
    codebook: Seq<FloatBits>,
    centroids: Seq<u8>,
    labels: Seq<u8>,
    coeffs: nat,
    i: int,
    ch: int,
    coeff: int,
)
    requires
        coeffs == 3 || coeffs == 8 || coeffs == 15,
        0 <= i,
        0 <= ch < 3,
        0 <= coeff < coeffs,
    ensures
        sh_entry(codebook, centroids, labels, coeffs, (i * 3 + ch) * coeffs + coeff) == sh_value(
            codebook,
            centroids,
            labels,
            coeffs,
            i,
            ch,
            coeff,
        ),
{
    let k = (i * 3 + ch) * coeffs + coeff;
    if coeffs == 3 {
        assert(k == 9 * i + (3 * ch + coeff));
        assert(k / 9 == i && (k / 3) % 3 == ch && k % 3 == coeff);
    } else if coeffs == 8 {
        assert(k == 24 * i + (8 * ch + coeff));
        assert(k / 24 == i && (k / 8) % 3 == ch && k % 8 == coeff);
    } else {
        assert(k == 45 * i + (15 * ch + coeff));
        assert(k / 45 == i && (k / 15) % 3 == ch && k % 15 == coeff);
    }
}

/// If no point before `i` has a palette index outside the table and point
/// `i` has one, then `i` is the first such point among any `count` points
/// that include it.
proof fn lemma_first_outside_found(
    centroids: Seq<u8>,
    labels: Seq<u8>,
    coeffs: nat,
    count: nat,
    i: nat,
)
    requires
        i < count,
        first_outside_palette(centroids, labels, coeffs, i) is None,
        !palette_in_table(centroids, coeffs, palette_index(labels, i as int)),
    ensures
        first_outside_palette(centroids, labels, coeffs, count) == Some(i),
    decreases count,
{
    if count == i + 1 {
    } else {
        lemma_first_outside_found(centroids, labels, coeffs, (count - 1) as nat, i);
    }
}

/// Dequantises the higher-order colour coefficients of the first `count`
/// points: each point's label selects a palette entry, whose centroid bytes
/// select table entries.
///
/// The band count is checked before anything else.
pub fn sh_from_pixels(
    bands: i32,
    codebook: &Codebook,
    centroids: &[u8],
    labels: &[u8],
    count: usize,
) -> (r: DecodeResult<Vec<FloatBits>>)
    ensures
        decoded(r) == sh_of(bands as int, codebook@, centroids@, labels@, count as nat),
{
    let coeffs: usize = match coeff_count_of(bands) {
        Ok(n) => n,
        Err(e) => {
            return Err(e);
        },
    };
    if centroids.len() % 3 != 0 || labels.len() % 4 != 0 {
        return Err(DecodeError::InvalidSize("invalid image dimensions".to_owned()));
    }
    if labels.len() / 4 < count {
        return Err(
            DecodeError::InvalidSize(
                with_number("labels image holds too few pixels for point count: ", count),
            ),
        );
    }
    let per_point: usize = coeffs * 3;
    let total: usize = match count.checked_mul(per_point) {
        Some(t) => t,
        None => {
            assert(count * coeffs * 3 == count * (coeffs * 3)) by (nonlinear_arith);
            return Err(
                DecodeError::InvalidSize(
                    with_number(
                        "coefficients exceed the addressable size for point count: ",
                        count,
                    ),
                ),
            );
        },
    };
    assert(count * coeffs * 3 == count * (coeffs * 3)) by (nonlinear_arith);
    let ghost table = codebook@;
    let ghost cs = centroids@;
    let ghost ls = labels@;
    let ghost n = coeffs as nat;
    let mut out: Vec<FloatBits> = Vec::new();
    let mut i: usize = 0;
    while i < count
        invariant
            i <= count,
            4 * count <= labels.len(),
            n == coeffs,
            coeffs == 3 || coeffs == 8 || coeffs == 15,
            per_point == coeffs * 3,
            total == count * per_point,
            table == codebook@,
            cs == centroids@,
            ls == labels@,
            coeff_count(bands as int) == Some(n),
            cs.len() % 3 == 0,
            ls.len() % 4 == 0,
            count * n * 3 <= usize::MAX,
            first_outside_palette(cs, ls, n, i as nat) is None,
            out@ == Seq::new((i * per_point) as nat, |k: int| sh_entry(table, cs, ls, n, k)),
        decreases count - i,
    {
        let low: usize = labels[i * 4] as usize;
        let high: usize = labels[i * 4 + 1] as usize;
        let palette: usize = low + 256 * high;
        assert(palette == palette_index(ls, i as int));
        assert((palette + 1) * per_point <= 65536 * 45) by (nonlinear_arith)
            requires
                palette <= 65535,
                per_point <= 45,
        ;
        if (palette + 1) * per_point > centroids.len() {
            proof {
                assert((palette + 1) * n * 3 == (palette + 1) * (n * 3)) by (nonlinear_arith);
                lemma_first_outside_found(cs, ls, n, count as nat, i as nat);
            }
            return Err(
                DecodeError::InvalidData(
                    with_two_numbers(
                        "palette index outside the centroid table: ",
                        palette,
                        ", index: ",
                        i,
                    ),
                ),
            );
        }
        proof {
            assert((palette + 1) * n * 3 == (palette + 1) * (n * 3)) by (nonlinear_arith);
            assert(i * per_point + per_point <= count * per_point) by (nonlinear_arith)
                requires
                    i < count,
            ;
        }
        let mut ch: usize = 0;
        while ch < 3
            invariant
                i < count,
                ch <= 3,
                n == coeffs,
                coeffs == 3 || coeffs == 8 || coeffs == 15,
                per_point == coeffs * 3,
                table == codebook@,
                cs == centroids@,
                ls == labels@,
                palette == palette_index(ls, i as int),
                palette <= 65535,
                (palette + 1) * per_point <= centroids.len(),
                i * per_point + per_point <= usize::MAX,
                out@ == Seq::new(
                    (i * per_point + ch * coeffs) as nat,
                    |k: int| sh_entry(table, cs, ls, n, k),
                ),
            decreases 3 - ch,
        {
            let mut coeff: usize = 0;
            while coeff < coeffs
                invariant
                    i < count,
                    ch < 3,
                    coeff <= coeffs,
                    n == coeffs,
                    coeffs == 3 || coeffs == 8 || coeffs == 15,
                    per_point == coeffs * 3,
                    table == codebook@,
                    cs == centroids@,
                    ls == labels@,
                    palette == palette_index(ls, i as int),
                    palette <= 65535,
                    (palette + 1) * per_point <= centroids.len(),
                    i * per_point + per_point <= usize::MAX,
                    out@ == Seq::new(
                        (i * per_point + ch * coeffs + coeff) as nat,
                        |k: int| sh_entry(table, cs, ls, n, k),
                    ),
                decreases coeffs - coeff,
            {
                assert(palette * coeffs + coeffs == (palette + 1) * coeffs) by (nonlinear_arith);
                assert((palette + 1) * per_point == ((palette + 1) * coeffs) * 3)
                    by (nonlinear_arith)
                    requires
                        per_point == coeffs * 3,
                ;
                let at: usize = (palette * coeffs + coeff) * 3 + ch;
                let value = codebook.lookup(centroids[at]);
                proof {
                    lemma_sh_entry_at(table, cs, ls, n, i as int, ch as int, coeff as int);
                    assert((i * 3 + ch) * n + coeff == i * per_point + ch * coeffs + coeff)
                        by (nonlinear_arith)
                        requires
                            per_point == coeffs * 3,
                            n == coeffs,
                    ;
                }
                out.push(value);
                coeff = coeff + 1;
                assert(out@ =~= Seq::new(
                    (i * per_point + ch * coeffs + coeff) as nat,
                    |k: int| sh_entry(table, cs, ls, n, k),
                ));
            }
            ch = ch + 1;
            assert(ch * coeffs == (ch - 1) * coeffs + coeffs) by (nonlinear_arith);
        }
        i = i + 1;
        assert(i * per_point == (i - 1) * per_point + 3 * coeffs) by (nonlinear_arith)
            requires
                per_point == coeffs * 3,
        ;
    }
    Ok(out)
}

// ------------------------------------------------------------- the payloads

/// The text that reports a position plane whose size cannot be determined.
pub open spec fn unsized_plane_text() -> Seq<char> {
    "Failed to get output buffer size of WebP image"@
}

/// What decoding the position group comes to: the low plane is read first,
/// then the high plane, then the two are joined.
pub open spec fn positions_of_group(means: Means, count: nat) -> Result<
    Seq<Coordinate>,
    DecodeFailure,
> {
    match pixels_of(means.means_l@, unsized_plane_text()) {
        Ok(lower) => match pixels_of(means.means_u@, unsized_plane_text()) {
            Ok(upper) => positions_of(lower, upper, means.mins, means.maxs, count),
            Err(e) => Err(e),
        },
        Err(e) => Err(e),
    }
}

/// Decodes the two position planes and joins them into the quantised
/// coordinates of `count` points, each with the bounds of its axis.
pub fn decode_positions(means: &Means, count: usize) -> (r: DecodeResult<Vec<Coordinate>>)
    ensures
        decoded(r) == positions_of_group(*means, count as nat),
{
    let lower = match read_webp(&means.means_l, "Failed to get output buffer size of WebP image") {
        Ok(p) => p,
        Err(e) => {
            return Err(e);
        },
    };
    let upper = match read_webp(&means.means_u, "Failed to get output buffer size of WebP image") {
        Ok(p) => p,
        Err(e) => {
            return Err(e);
        },
    };
    positions_from_pixels(lower.as_slice(), upper.as_slice(), &means.mins, &means.maxs, count)
}

/// What decoding the rotation group comes to.
pub open spec fn rotations_of_group(quats: Quats, count: nat) -> Result<
    Seq<QuatSlot>,
    DecodeFailure,
> {
    match pixels_of(quats.0@, unsized_text()) {
        Ok(pixels) => rotations_of(pixels, count),
        Err(e) => Err(e),
    }
}

/// Decodes the rotation payload and lays out the slots of `count` points, in
/// the order x, y, z, w.
pub fn decode_rotations(quats: &Quats, count: usize) -> (r: DecodeResult<Vec<QuatSlot>>)
    ensures
        decoded(r) == rotations_of_group(*quats, count as nat),
{
    let pixels = match read_webp(&quats.0, "cannot determine output size") {
        Ok(p) => p,
        Err(e) => {
            return Err(e);
        },
    };
    rotations_from_pixels(pixels.as_slice(), count)
}

/// What decoding the scale group comes to.
pub open spec fn scales_of_group(scales: Scales, count: nat) -> Result<
    Seq<FloatBits>,
    DecodeFailure,
> {
    match pixels_of(scales.scales@, unsized_text()) {
        Ok(pixels) => scales_of(scales.codebook@, pixels, count),
        Err(e) => Err(e),
    }
}

/// Decodes the scale payload and dequantises the scales of `count` points.
pub fn decode_scales(scales: &Scales, count: usize) -> (r: DecodeResult<Vec<FloatBits>>)
    ensures
        decoded(r) == scales_of_group(*scales, count as nat),
{
    let pixels = match read_webp(&scales.scales, "cannot determine output size") {
        Ok(p) => p,
        Err(e) => {
            return Err(e);
        },
    };
    scales_from_pixels(&scales.codebook, pixels.as_slice(), count)
}

/// What decoding the base colour group comes to.
pub open spec fn colors_of_group(sh0: Sh0, count: nat) -> Result<Seq<ColorSlot>, DecodeFailure> {
    match pixels_of(sh0.sh0@, unsized_text()) {
        Ok(pixels) => colors_of(sh0.codebook@, pixels, count),
        Err(e) => Err(e),
    }
}

/// Decodes the base colour payload and dequantises the colours of `count`
/// points, with the opacity byte of each.
pub fn decode_color(sh0: &Sh0, count: usize) -> (r: DecodeResult<Vec<ColorSlot>>)
    ensures
        decoded(r) == colors_of_group(*sh0, count as nat),
{
    let pixels = match read_webp(&sh0.sh0, "cannot determine output size") {
        Ok(p) => p,
        Err(e) => {
            return Err(e);
        },
    };
    colors_from_pixels(&sh0.codebook, pixels.as_slice(), count)
}

/// What decoding the higher-order colour group comes to. An invalid band
/// count decides the result whatever the payloads hold; else the centroids
/// are read first, then the labels.
pub open spec fn sh_of_group(sh_n: ShN, count: nat) -> Result<Seq<FloatBits>, DecodeFailure> {
    if coeff_count(sh_n.bands as int) is None {
        Err(DecodeFailure::InvalidSize(invalid_bands_text(sh_n.bands as int)))
    } else {
        match pixels_of(sh_n.centroids@, unsized_text()) {
            Ok(centroids) => match pixels_of(sh_n.labels@, unsized_text()) {
                Ok(labels) => sh_of(sh_n.bands as int, sh_n.codebook@, centroids, labels, count),
                Err(e) => Err(e),
            },
            Err(e) => Err(e),
        }
    }
}

/// Decodes the higher-order colour group of `count` points. The band count
/// is checked before either payload is decoded.
pub fn decode_sh_n(sh_n: &ShN, count: usize) -> (r: DecodeResult<Vec<FloatBits>>)
    ensures
        decoded(r) == sh_of_group(*sh_n, count as nat),
{
    match coeff_count_of(sh_n.bands) {
        Ok(_) => {},
        Err(e) => {
            return Err(e);
        },
    }
    let centroids = match read_webp(&sh_n.centroids, "cannot determine output size") {
        Ok(p) => p,
        Err(e) => {
            return Err(e);
        },
    };
    let labels = match read_webp(&sh_n.labels, "cannot determine output size") {
        Ok(p) => p,
        Err(e) => {
            return Err(e);
        },
    };
    sh_from_pixels(sh_n.bands, &sh_n.codebook, centroids.as_slice(), labels.as_slice(), count)
}

// ---------------------------------------------------------------- the splat

/// A decoded point cloud as plain values.
pub struct SplatView {
    pub count: nat,
    pub antialias: bool,
    pub sh_degree: nat,
    pub position: Seq<Coordinate>,
    pub rotation: Seq<QuatSlot>,
    pub scale: Seq<FloatBits>,
    pub color: Seq<ColorSlot>,
    pub sh: Option<Seq<FloatBits>>,
}

impl View for Splat {
    type V = SplatView;

    open spec fn view(&self) -> SplatView {
        SplatView {
            count: self.count as nat,
            antialias: self.antialias,
            sh_degree: self.sh_degree as nat,
            position: self.position@,
            rotation: self.rotation@,
            scale: self.scale@,
            color: self.color@,
            sh: match self.sh {
                Some(v) => Some(v@),
                None => None,
            },
        }
    }
}

/// The result of the whole pipeline as plain values.
pub open spec fn decoded_splat(r: Result<Splat, Error>) -> Result<SplatView, Failure> {
    match r {
        Ok(s) => Ok(s@),
        Err(e) => Err(e@),
    }
}

/// The higher-order colour coefficients of a container, where it has any.
pub open spec fn sh_of_container(sog: SogDataV2) -> Result<Option<Seq<FloatBits>>, DecodeFailure> {
    match sog.sh_n {
        None => Ok(None),
        Some(group) => match sh_of_group(group, sog.count as nat) {
            Ok(sh) => Ok(Some(sh)),
            Err(e) => Err(e),
        },
    }
}

/// The point cloud that a container decodes to. The groups are decoded in
/// the order position, rotation, scale, colour, higher-order colour, and the
/// first failure is the failure of the whole.
pub open spec fn splat_of(sog: SogDataV2) -> Result<SplatView, Failure> {
    let count = sog.count as nat;
    match positions_of_group(sog.means, count) {
        Err(e) => Err(Failure::SogDecode(e)),
        Ok(position) => match rotations_of_group(sog.quats, count) {
            Err(e) => Err(Failure::SogDecode(e)),
            Ok(rotation) => match scales_of_group(sog.scales, count) {
                Err(e) => Err(Failure::SogDecode(e)),
                Ok(scale) => match colors_of_group(sog.sh0, count) {
                    Err(e) => Err(Failure::SogDecode(e)),
                    Ok(color) => match sh_of_container(sog) {
                        Err(e) => Err(Failure::SogDecode(e)),
                        Ok(sh) => Ok(
                            SplatView {
                                count,
                                antialias: sog.antialias,
                                sh_degree: match sog.sh_n {
                                    Some(group) => group.bands as nat,
                                    None => 0,
                                },
                                position,
                                rotation,
                                scale,
                                color,
                                sh,
                            },
                        ),
                    },
                },
            },
        },
    }
}

/// Decodes every attribute group of an unpacked container. Either all groups
/// decode and the point cloud is returned whole, or the first failure is
/// returned and nothing else.
pub fn decode(sog_data: &SogDataV2) -> (r: Result<Splat, Error>)
    ensures
        decoded_splat(r) == splat_of(*sog_data),
{
    let count: usize = sog_data.count as usize;
    let position = match decode_positions(&sog_data.means, count) {
        Ok(v) => v,
        Err(e) => {
            return Err(Error::SogDecode(e));
        },
    };
    let rotation = match decode_rotations(&sog_data.quats, count) {
        Ok(v) => v,
        Err(e) => {
            return Err(Error::SogDecode(e));
        },
    };
    let scale = match decode_scales(&sog_data.scales, count) {
        Ok(v) => v,
        Err(e) => {
            return Err(Error::SogDecode(e));
        },
    };
    let color = match decode_color(&sog_data.sh0, count) {
        Ok(v) => v,
        Err(e) => {
            return Err(Error::SogDecode(e));
        },
    };
    let mut sh_degree: usize = 0;
    let sh = match &sog_data.sh_n {
        Some(group) => match decode_sh_n(group, count) {
            Ok(v) => {
                sh_degree = group.bands as usize;
                Some(v)
            },
            Err(e) => {
                return Err(Error::SogDecode(e));
            },
        },
        None => None,
    };
    Ok(
        Splat {
            count,
            antialias: sog_data.antialias,
            sh_degree,
            position,
            rotation,
            scale,
            color,
            sh,
        },
    )
}

} // verus!
