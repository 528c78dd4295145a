//! What holds of every container and every pixel buffer.
use vstd::prelude::*;
use crate::archive::{find_file, unzipped, Entries};
use crate::decode::{
    coeff_count, colors_of, colors_of_group, first_invalid_mode, first_outside_palette,
    invalid_bands_text, invalid_mode_text, palette_in_table, palette_index, positions_of,
    positions_of_group, rotation_entry, rotations_of, rotations_of_group, scales_of,
    scales_of_group, sh_of, sh_of_container, sh_of_group, splat_of, MODE_BASE,
};
use crate::webp::{pixels_of, unsized_text};
use crate::metajson::MetaJsonType;
use crate::unpack::{is_unpacked, manifest_name, open_failure, unpack_failure};
use crate::error::{DecodeFailure, Failure, ParseFailure};
use crate::types::{Codebook, ColorSlot, FloatBits, QuatSlot, ShN, SogDataV2, Vector3};

verus! {

/// A container that is a readable archive without an entry `meta.json`
/// cannot be unpacked, whatever else the archive holds, also where it holds
/// nothing: opening it fails with `MetaJsonNotFound`, and so does unpacking
/// its entries, whatever manifest is handed in with them.
pub proof fn lemma_archive_without_manifest(file: Seq<u8>, manifest: Result<MetaJsonType, String>)
    requires
        unzipped(file) is Ok,
        forall|i: int|
            0 <= i < unzipped(file)->Ok_0.len() ==> (#[trigger] unzipped(file)->Ok_0[i]).0
                != manifest_name(),
    ensures
        open_failure(file) == Some(Failure::SogParse(ParseFailure::MetaJsonNotFound)),
        unpack_failure(unzipped(file)->Ok_0, manifest) == Some(
            Failure::SogParse(ParseFailure::MetaJsonNotFound),
        ),
{
    lemma_find_file(unzipped(file)->Ok_0, manifest_name());
}

/// Entries none of which is called `name` hold no content for that name,
/// and entries the last of which is called `name` hold its content.
pub proof fn lemma_find_file(files: Entries, name: Seq<char>)
    ensures
        (forall|i: int| 0 <= i < files.len() ==> (#[trigger] files[i]).0 != name) ==> find_file(
            files,
            name,
        ) is None,
        find_file(files, name) is Some ==> exists|i: int|
            0 <= i < files.len() && (#[trigger] files[i]).0 == name && find_file(files, name)
                == Some(files[i].1),
    decreases files.len(),
{
    if files.len() > 0 {
        lemma_find_file(files.drop_last(), name);
        if files.last().0 != name {
            if find_file(files, name) is Some {
                let i = choose|i: int|
                    0 <= i < files.drop_last().len() && (#[trigger] files.drop_last()[i]).0
                        == name && find_file(files.drop_last(), name) == Some(
                        files.drop_last()[i].1,
                    );
                assert(files[i] == files.drop_last()[i]);
            }
            assert forall|i: int| 0 <= i < files.drop_last().len() implies files.drop_last()[i]
                == files[i] by {}
            if forall|i: int| 0 <= i < files.len() ==> (#[trigger] files[i]).0 != name {
                assert forall|i: int| 0 <= i < files.drop_last().len() implies (
                #[trigger] files.drop_last()[i]).0 != name by {
                    assert(files.drop_last()[i] == files[i]);
                }
            }
        } else {
            assert(files[files.len() - 1] == files.last());
        }
    }
}

/// What a manifest and an archive unpack to decodes in one way only: two
/// containers that both are the join of the same manifest and archive decode
/// to the same point cloud, or fail alike.
pub proof fn lemma_unpacked_decodes_alike(
    files: Entries,
    meta: MetaJsonType,
    a: SogDataV2,
    b: SogDataV2,
)
    requires
        is_unpacked(files, meta, a),
        is_unpacked(files, meta, b),
    ensures
        splat_of(a) == splat_of(b),
{
    assert(a.sh_n is Some <==> b.sh_n is Some);
    assert(positions_of_group(a.means, a.count as nat) == positions_of_group(
        b.means,
        b.count as nat,
    ));
    assert(rotations_of_group(a.quats, a.count as nat) == rotations_of_group(
        b.quats,
        b.count as nat,
    ));
    assert(scales_of_group(a.scales, a.count as nat) == scales_of_group(
        b.scales,
        b.count as nat,
    ));
    assert(colors_of_group(a.sh0, a.count as nat) == colors_of_group(b.sh0, b.count as nat));
    assert(sh_of_container(a) == sh_of_container(b));
}

/// Every array of a decoded point cloud has the length that the point count
/// fixes: three entries per point for positions and scales, four for
/// rotations and colours, and three times the coefficient count for the
/// higher-order colour, which is present exactly where the container has
/// that group. The size of a payload's image plays no part.
pub proof fn lemma_array_lengths(sog: SogDataV2)
    requires
        splat_of(sog) is Ok,
    ensures
        ({
            let splat = splat_of(sog)->Ok_0;
            let count = sog.count as nat;
            &&& splat.count == count
            &&& splat.position.len() == 3 * count
            &&& splat.rotation.len() == 4 * count
            &&& splat.scale.len() == 3 * count
            &&& splat.color.len() == 4 * count
            &&& splat.sh is Some <==> sog.sh_n is Some
            &&& sog.sh_n is Some ==> {
                &&& coeff_count(sog.sh_n->Some_0.bands as int) is Some
                &&& splat.sh_degree == sog.sh_n->Some_0.bands
                &&& splat.sh->Some_0.len() == count * coeff_count(
                    sog.sh_n->Some_0.bands as int,
                )->Some_0 * 3
            }
            &&& sog.sh_n is None ==> splat.sh_degree == 0
        }),
{
}

/// Pixels beyond the point count are ignored: two pairs of position planes
/// of valid sizes that agree on the first `count` pixels decode alike.
pub proof fn lemma_positions_ignore_padding(
    lower: Seq<u8>,
    upper: Seq<u8>,
    longer_lower: Seq<u8>,
    longer_upper: Seq<u8>,
    mins: Vector3,
    maxs: Vector3,
    count: nat,
)
    requires
        positions_of(lower, upper, mins, maxs, count) is Ok,
        positions_of(longer_lower, longer_upper, mins, maxs, count) is Ok,
        longer_lower.subrange(0, 4 * (count as int)) == lower.subrange(0, 4 * (count as int)),
        longer_upper.subrange(0, 4 * (count as int)) == upper.subrange(0, 4 * (count as int)),
    ensures
        positions_of(longer_lower, longer_upper, mins, maxs, count) == positions_of(
            lower,
            upper,
            mins,
            maxs,
            count,
        ),
{
    let a = positions_of(lower, upper, mins, maxs, count)->Ok_0;
    let b = positions_of(longer_lower, longer_upper, mins, maxs, count)->Ok_0;
    assert forall|k: int| 0 <= k < 3 * count implies a[k] == b[k] by {
        let at = (k / 3) * 4 + k % 3;
        assert(lower[at] == lower.subrange(0, 4 * (count as int))[at]);
        assert(upper[at] == upper.subrange(0, 4 * (count as int))[at]);
        assert(longer_lower[at] == longer_lower.subrange(0, 4 * (count as int))[at]);
        assert(longer_upper[at] == longer_upper.subrange(0, 4 * (count as int))[at]);
    }
    assert(a =~= b);
}

/// A quantised coordinate keeps both of its bytes: the high byte is the
/// quotient by 256 and the low byte the remainder. So it is 0 only where both
/// bytes are 0, the lower end of the range, and 65535 only where both are
/// 255, the upper end. Its bounds are those of its own axis: x, y, z in turn.
pub proof fn lemma_position_bytes(
    lower: Seq<u8>,
    upper: Seq<u8>,
    mins: Vector3,
    maxs: Vector3,
    count: nat,
    k: int,
)
    requires
        positions_of(lower, upper, mins, maxs, count) is Ok,
        0 <= k < 3 * count,
    ensures
        ({
            let entry = positions_of(lower, upper, mins, maxs, count)->Ok_0[k];
            let v = entry.raw;
            let at = (k / 3) * 4 + k % 3;
            &&& v / 256 == upper[at]
            &&& v % 256 == lower[at]
            &&& v == 0 <==> upper[at] == 0 && lower[at] == 0
            &&& v == 65535 <==> upper[at] == 255 && lower[at] == 255
            &&& k % 3 == 0 ==> entry.min == mins.x && entry.max == maxs.x
            &&& k % 3 == 1 ==> entry.min == mins.y && entry.max == maxs.y
            &&& k % 3 == 2 ==> entry.min == mins.z && entry.max == maxs.z
        }),
{
}

/// A tag byte below 252 among the first `count` points makes the rotation
/// decoder fail with `InvalidData`, and the error names the first such point
/// and its byte. (A byte is at most 255, so a tag that is not below 252
/// stands for one of the modes 0 to 3: no other mode can be written.)
pub proof fn lemma_mode_rejection(pixels: Seq<u8>, count: nat, i: int)
    requires
        4 * count <= pixels.len(),
        0 <= i < count,
        pixels[i * 4 + 3] < MODE_BASE,
    ensures
        first_invalid_mode(pixels, count) is Some,
        ({
            let first = first_invalid_mode(pixels, count)->Some_0;
            &&& first <= i
            &&& pixels[first as int * 4 + 3] < MODE_BASE
            &&& rotations_of(pixels, count) == Err::<Seq<QuatSlot>, DecodeFailure>(
                DecodeFailure::InvalidData(invalid_mode_text(pixels[first as int * 4 + 3], first)),
            )
        }),
{
    lemma_first_invalid_exists(pixels, count, i);
    lemma_first_invalid_bound(pixels, count);
}

/// If one of `count` points has a tag byte below 252, a first such point
/// exists and is not behind it.
proof fn lemma_first_invalid_exists(pixels: Seq<u8>, count: nat, i: int)
    requires
        0 <= i < count,
        pixels[i * 4 + 3] < MODE_BASE,
    ensures
        first_invalid_mode(pixels, count) is Some,
        first_invalid_mode(pixels, count)->Some_0 <= i,
    decreases count,
{
    if i < count - 1 {
        lemma_first_invalid_exists(pixels, (count - 1) as nat, i);
    } else {
        lemma_first_invalid_bound(pixels, (count - 1) as nat);
    }
}

/// The first invalid tag among `count` points, if there is one, is that of a
/// point below `count` and is below 252.
proof fn lemma_first_invalid_bound(pixels: Seq<u8>, count: nat)
    ensures
        first_invalid_mode(pixels, count) is Some ==> {
            &&& first_invalid_mode(pixels, count)->Some_0 < count
            &&& pixels[first_invalid_mode(pixels, count)->Some_0 as int * 4 + 3] < MODE_BASE
        },
    decreases count,
{
    if count > 0 {
        lemma_first_invalid_bound(pixels, (count - 1) as nat);
    }
}

/// Where the rotations of `count` points decode, every one of those points
/// has a tag byte of 252 or more.
pub proof fn lemma_decoded_modes_valid(pixels: Seq<u8>, count: nat, i: int)
    requires
        rotations_of(pixels, count) is Ok,
        0 <= i < count,
    ensures
        pixels[i * 4 + 3] >= MODE_BASE,
{
    if pixels[i * 4 + 3] < MODE_BASE {
        lemma_mode_rejection(pixels, count, i);
    }
}

/// The layout of one decoded rotation. With the stored bytes `a`, `b`, `c`
/// and the mode `m - 252`, the four slots are: mode 0, (largest, a, b, c);
/// mode 1, (a, largest, b, c); mode 2, (a, b, largest, c); mode 3,
/// (a, b, c, largest). The largest slot carries `a`, `b` and `c`.
pub proof fn lemma_rotation_layout(pixels: Seq<u8>, count: nat, i: int)
    requires
        rotations_of(pixels, count) is Ok,
        0 <= i < count,
    ensures
        ({
            let out = rotations_of(pixels, count)->Ok_0;
            let a = QuatSlot::Stored(pixels[i * 4]);
            let b = QuatSlot::Stored(pixels[i * 4 + 1]);
            let c = QuatSlot::Stored(pixels[i * 4 + 2]);
            let d = QuatSlot::Largest(pixels[i * 4], pixels[i * 4 + 1], pixels[i * 4 + 2]);
            let mode = pixels[i * 4 + 3] - MODE_BASE;
            let q = out.subrange(i * 4, i * 4 + 4);
            &&& 0 <= mode <= 3
            &&& mode == 0 ==> q == seq![d, a, b, c]
            &&& mode == 1 ==> q == seq![a, d, b, c]
            &&& mode == 2 ==> q == seq![a, b, d, c]
            &&& mode == 3 ==> q == seq![a, b, c, d]
        }),
{
    lemma_decoded_modes_valid(pixels, count, i);
    let out = rotations_of(pixels, count)->Ok_0;
    let q = out.subrange(i * 4, i * 4 + 4);
    let a = QuatSlot::Stored(pixels[i * 4]);
    let b = QuatSlot::Stored(pixels[i * 4 + 1]);
    let c = QuatSlot::Stored(pixels[i * 4 + 2]);
    let d = QuatSlot::Largest(pixels[i * 4], pixels[i * 4 + 1], pixels[i * 4 + 2]);
    let mode = pixels[i * 4 + 3] - MODE_BASE;
    assert(q[0] == rotation_entry(pixels, i * 4));
    assert(q[1] == rotation_entry(pixels, i * 4 + 1));
    assert(q[2] == rotation_entry(pixels, i * 4 + 2));
    assert(q[3] == rotation_entry(pixels, i * 4 + 3));
    if mode == 0 {
        assert(q =~= seq![d, a, b, c]);
    } else if mode == 1 {
        assert(q =~= seq![a, d, b, c]);
    } else if mode == 2 {
        assert(q =~= seq![a, b, d, c]);
    } else {
        assert(q =~= seq![a, b, c, d]);
    }
}

/// Every byte is a valid index into a table: a table has exactly 256
/// entries, so no lookup by a byte can fall outside it.
pub proof fn lemma_lookup_in_bounds(codebook: Codebook, index: u8)
    ensures
        codebook@.len() == 256,
        0 <= index < codebook@.len(),
{
}

/// Every entry of decoded scales is an entry of the table.
pub proof fn lemma_scales_from_table(codebook: Codebook, pixels: Seq<u8>, count: nat, k: int)
    requires
        scales_of(codebook@, pixels, count) is Ok,
        0 <= k < 3 * count,
    ensures
        exists|b: u8| scales_of(codebook@, pixels, count)->Ok_0[k] == codebook@[b as int],
{
    let b = pixels[(k / 3) * 4 + k % 3];
    assert(scales_of(codebook@, pixels, count)->Ok_0[k] == codebook@[b as int]);
}

/// Every entry of decoded colours is an entry of the table, but for each
/// fourth, which is the opacity byte of its pixel.
pub proof fn lemma_colors_from_table(codebook: Codebook, pixels: Seq<u8>, count: nat, k: int)
    requires
        colors_of(codebook@, pixels, count) is Ok,
        0 <= k < 4 * count,
    ensures
        k % 4 == 3 ==> colors_of(codebook@, pixels, count)->Ok_0[k] == ColorSlot::Opacity(
            pixels[k],
        ),
        k % 4 != 3 ==> exists|b: u8|
            colors_of(codebook@, pixels, count)->Ok_0[k] == ColorSlot::Table(codebook@[b as int]),
{
    if k % 4 != 3 {
        let b = pixels[k];
        assert(colors_of(codebook@, pixels, count)->Ok_0[k] == ColorSlot::Table(
            codebook@[b as int],
        ));
    }
}

/// Pixels beyond the point count are ignored by the table decoders too: two
/// buffers of valid sizes that agree on the first `count` pixels give the
/// same scales and the same colours.
pub proof fn lemma_tables_ignore_padding(
    codebook: Seq<FloatBits>,
    pixels: Seq<u8>,
    longer: Seq<u8>,
    count: nat,
)
    requires
        pixels.len() % 4 == 0,
        longer.len() % 4 == 0,
        4 * count <= pixels.len(),
        4 * count <= longer.len(),
        longer.subrange(0, 4 * (count as int)) == pixels.subrange(0, 4 * (count as int)),
    ensures
        scales_of(codebook, longer, count) == scales_of(codebook, pixels, count),
        colors_of(codebook, longer, count) == colors_of(codebook, pixels, count),
{
    assert forall|i: int| 0 <= i < 4 * count implies pixels[i] == longer[i] by {
        assert(pixels[i] == pixels.subrange(0, 4 * (count as int))[i]);
        assert(longer[i] == longer.subrange(0, 4 * (count as int))[i]);
    }
    let a = scales_of(codebook, pixels, count)->Ok_0;
    let b = scales_of(codebook, longer, count)->Ok_0;
    assert forall|k: int| 0 <= k < 3 * count implies a[k] == b[k] by {
        let at = (k / 3) * 4 + k % 3;
        assert(pixels[at] == longer[at]);
    }
    assert(a =~= b);
    let c = colors_of(codebook, pixels, count)->Ok_0;
    let d = colors_of(codebook, longer, count)->Ok_0;
    assert forall|k: int| 0 <= k < 4 * count implies c[k] == d[k] by {
        assert(pixels[k] == longer[k]);
    }
    assert(c =~= d);
}

/// Pixels beyond the point count are ignored by the rotation decoder: two
/// buffers that hold `count` pixels or more and agree on the first `count`
/// give the same rotations, or the same error.
pub proof fn lemma_rotations_ignore_padding(pixels: Seq<u8>, longer: Seq<u8>, count: nat)
    requires
        4 * count <= pixels.len(),
        4 * count <= longer.len(),
        longer.subrange(0, 4 * (count as int)) == pixels.subrange(0, 4 * (count as int)),
    ensures
        rotations_of(longer, count) == rotations_of(pixels, count),
{
    assert forall|i: int| 0 <= i < 4 * count implies pixels[i] == longer[i] by {
        assert(pixels[i] == pixels.subrange(0, 4 * (count as int))[i]);
        assert(longer[i] == longer.subrange(0, 4 * (count as int))[i]);
    }
    lemma_first_invalid_agrees(pixels, longer, count, count);
    lemma_first_invalid_bound(pixels, count);
    if first_invalid_mode(pixels, count) is None {
        let a = rotations_of(pixels, count)->Ok_0;
        let b = rotations_of(longer, count)->Ok_0;
        assert forall|k: int| 0 <= k < 4 * count implies a[k] == b[k] by {
            let base = (k / 4) * 4;
            lemma_decoded_modes_valid(pixels, count, k / 4);
            assert(pixels[base + 3] == longer[base + 3]);
            assert(pixels[base] == longer[base]);
            assert(pixels[base + 1] == longer[base + 1]);
            assert(pixels[base + 2] == longer[base + 2]);
            assert(pixels[base + k % 4] == longer[base + k % 4]);
            if k % 4 > 0 {
                assert(pixels[base + k % 4 - 1] == longer[base + k % 4 - 1]);
            }
        }
        assert(a =~= b);
    }
}

/// Two buffers that agree on their first `bound` pixels have the same first
/// invalid tag among any `count` of those pixels.
proof fn lemma_first_invalid_agrees(a: Seq<u8>, b: Seq<u8>, bound: nat, count: nat)
    requires
        count <= bound,
        forall|i: int| 0 <= i < 4 * bound ==> a[i] == b[i],
    ensures
        first_invalid_mode(a, count) == first_invalid_mode(b, count),
    decreases count,
{
    if count > 0 {
        lemma_first_invalid_agrees(a, b, bound, (count - 1) as nat);
        assert(a[(count - 1) * 4 + 3] == b[(count - 1) * 4 + 3]);
    }
}

/// Where every one of `count` points has its palette index inside the
/// table, no first point outside it exists.
proof fn lemma_no_outside_palette(centroids: Seq<u8>, labels: Seq<u8>, coeffs: nat, count: nat)
    requires
        forall|i: int|
            0 <= i < count ==> palette_in_table(
                centroids,
                coeffs,
                #[trigger] palette_index(labels, i),
            ),
    ensures
        first_outside_palette(centroids, labels, coeffs, count) is None,
    decreases count,
{
    if count > 0 {
        lemma_no_outside_palette(centroids, labels, coeffs, (count - 1) as nat);
        assert(palette_in_table(centroids, coeffs, palette_index(labels, count - 1)));
    }
}

/// The higher-order colour of `count` points decodes, and to an array of
/// `count` times three times the coefficient count of the bands, wherever
/// the band count is 1, 2 or 3, three divides the centroids' length, four
/// divides the labels' length, the labels hold `count` pixels or more, every
/// palette index of those points is inside the centroid table, and an array
/// of that length can exist. Neither the buffers' lengths nor the group's own
/// count play a part in the length.
pub proof fn lemma_sh_decodes(
    bands: int,
    codebook: Seq<FloatBits>,
    centroids: Seq<u8>,
    labels: Seq<u8>,
    count: nat,
)
    requires
        coeff_count(bands) is Some,
        centroids.len() % 3 == 0,
        labels.len() % 4 == 0,
        4 * count <= labels.len(),
        count * coeff_count(bands)->Some_0 * 3 <= usize::MAX,
        forall|i: int|
            0 <= i < count ==> palette_in_table(
                centroids,
                coeff_count(bands)->Some_0,
                #[trigger] palette_index(labels, i),
            ),
    ensures
        sh_of(bands, codebook, centroids, labels, count) is Ok,
        sh_of(bands, codebook, centroids, labels, count)->Ok_0.len() == count * coeff_count(
            bands,
        )->Some_0 * 3,
        bands == 1 ==> sh_of(bands, codebook, centroids, labels, count)->Ok_0.len() == count * 3
            * 3,
        bands == 2 ==> sh_of(bands, codebook, centroids, labels, count)->Ok_0.len() == count * 8
            * 3,
        bands == 3 ==> sh_of(bands, codebook, centroids, labels, count)->Ok_0.len() == count * 15
            * 3,
{
    lemma_no_outside_palette(centroids, labels, coeff_count(bands)->Some_0, count);
}

/// The same of a group whose two payloads decode to the buffers `centroids`
/// and `labels`.
pub proof fn lemma_sh_group_decodes(
    group: ShN,
    centroids: Seq<u8>,
    labels: Seq<u8>,
    count: nat,
)
    requires
        pixels_of(group.centroids@, unsized_text()) == Ok::<Seq<u8>, DecodeFailure>(centroids),
        pixels_of(group.labels@, unsized_text()) == Ok::<Seq<u8>, DecodeFailure>(labels),
        coeff_count(group.bands as int) is Some,
        centroids.len() % 3 == 0,
        labels.len() % 4 == 0,
        4 * count <= labels.len(),
        count * coeff_count(group.bands as int)->Some_0 * 3 <= usize::MAX,
        forall|i: int|
            0 <= i < count ==> palette_in_table(
                centroids,
                coeff_count(group.bands as int)->Some_0,
                #[trigger] palette_index(labels, i),
            ),
    ensures
        sh_of_group(group, count) is Ok,
        sh_of_group(group, count)->Ok_0.len() == count * coeff_count(
            group.bands as int,
        )->Some_0 * 3,
{
    lemma_sh_decodes(group.bands as int, group.codebook@, centroids, labels, count);
}

/// Every entry of decoded higher-order colour is an entry of the table.
pub proof fn lemma_sh_from_table(
    bands: int,
    codebook: Codebook,
    centroids: Seq<u8>,
    labels: Seq<u8>,
    count: nat,
    j: int,
)
    requires
        sh_of(bands, codebook@, centroids, labels, count) is Ok,
        0 <= j < sh_of(bands, codebook@, centroids, labels, count)->Ok_0.len(),
    ensures
        codebook@.len() == 256,
        exists|b: u8|
            sh_of(bands, codebook@, centroids, labels, count)->Ok_0[j] == codebook@[b as int],
{
    let coeffs = coeff_count(bands)->Some_0;
    let i = j / (3 * (coeffs as int));
    let ch = (j / (coeffs as int)) % 3;
    let coeff = j % (coeffs as int);
    let b = centroids[(palette_index(labels, i) * coeffs + coeff) * 3 + ch];
    assert(sh_of(bands, codebook@, centroids, labels, count)->Ok_0[j] == codebook@[b as int]);
}

/// A band count other than 1, 2 or 3 fails on its own: the result is the same
/// error whatever the table, the pixel buffers and the point count are.
pub proof fn lemma_invalid_bands_fail_first(
    bands: int,
    codebook: Seq<FloatBits>,
    centroids: Seq<u8>,
    labels: Seq<u8>,
    count: nat,
)
    requires
        bands != 1 && bands != 2 && bands != 3,
    ensures
        sh_of(bands, codebook, centroids, labels, count) == Err::<Seq<FloatBits>, DecodeFailure>(
            DecodeFailure::InvalidSize(invalid_bands_text(bands)),
        ),
{
}

/// A group with a band count other than 1, 2 or 3 fails with the same error
/// whatever its payloads hold, also where they are no images at all.
pub proof fn lemma_invalid_bands_ignore_payloads(group: ShN, count: nat)
    requires
        group.bands != 1 && group.bands != 2 && group.bands != 3,
    ensures
        sh_of_group(group, count) == Err::<Seq<FloatBits>, DecodeFailure>(
            DecodeFailure::InvalidSize(invalid_bands_text(group.bands as int)),
        ),
{
}

} // verus!
