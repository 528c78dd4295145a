//! The first phase: from the archive and its manifest to the unpacked
//! container. No payload is decoded here.
use vstd::prelude::*;
use vstd::utf8::{encode_utf8, valid_utf8};
use crate::archive::{find, find_file, listing, unzip, unzipped, ArchiveFile, Entries};
use crate::error::{Error, Failure, ParseError, ParseFailure, ParseResult};
use crate::metajson::MetaJsonType;
use crate::decode::{decode, decoded_splat, splat_of};
use crate::types::{
    short_codebook_text, short_vector_text, Codebook, FloatBits, Means, Quats, Scales, Sh0, ShN,
    SogDataV2, Splat, Vector3,
};

verus! {

#[verifier::external_type_specification]
#[verifier::external_body]
pub struct ExUtf8Error(core::str::Utf8Error);

/// `core::str::from_utf8`: the bytes as text where they are valid UTF-8, and
/// an error where they are not.
#[verifier::external_body]
fn text_of(bytes: &[u8]) -> (r: Result<&str, core::str::Utf8Error>)
    ensures
        r is Ok <==> valid_utf8(bytes@),
        r is Ok ==> encode_utf8(r->Ok_0@) == bytes@,
{
    core::str::from_utf8(bytes)
}

/// The name of the manifest's entry.
pub open spec fn manifest_name() -> Seq<char> {
    "meta.json"@
}

/// Why the manifest's text cannot be had from an archive, if it cannot.
pub open spec fn manifest_failure(files: Entries) -> Option<ParseFailure> {
    match find_file(files, manifest_name()) {
        None => Some(ParseFailure::MetaJsonNotFound),
        Some(bytes) => if valid_utf8(bytes) {
            None
        } else {
            Some(ParseFailure::InvalidMetaJson("encoding is not utf8"@))
        },
    }
}

/// The text of the manifest: the content of the entry `meta.json`, which
/// must be valid UTF-8.
pub fn manifest_text(files: &Vec<ArchiveFile>) -> (r: ParseResult<String>)
    ensures
        match manifest_failure(listing(files@)) {
            Some(f) => r is Err && r->Err_0@ == f,
            None => r is Ok && Some(encode_utf8(r->Ok_0@)) == find_file(listing(files@),
                manifest_name(),
            ),
        },
{
    let name = "meta.json".to_owned();
    let bytes = match find(files, &name) {
        Some(b) => b,
        None => {
            return Err(ParseError::MetaJsonNotFound);
        },
    };
    match text_of(bytes.as_slice()) {
        Ok(text) => Ok(text.to_owned()),
        Err(_) => Err(ParseError::InvalidMetaJson("encoding is not utf8".to_owned())),
    }
}

// ----------------------------------------------------------- single checks

/// The first of two failures.
pub open spec fn first_failure(a: Option<ParseFailure>, b: Option<ParseFailure>) -> Option<
    ParseFailure,
> {
    if a is Some {
        a
    } else {
        b
    }
}

/// A list of payload names fails where it has no name in `slot`; `text`
/// names the role of that payload.
pub open spec fn name_failure(names: Seq<String>, slot: int, text: Seq<char>) -> Option<
    ParseFailure,
> {
    if slot < names.len() {
        None
    } else {
        Some(ParseFailure::InvalidMetaJson(text))
    }
}

/// A payload name fails where the archive has no entry of that name.
pub open spec fn image_failure(files: Entries, name: Seq<char>) -> Option<ParseFailure> {
    if find_file(files, name) is Some {
        None
    } else {
        Some(ParseFailure::ImageNotFound(name))
    }
}

/// A bounds list fails where it has fewer than three entries.
pub open spec fn vector_failure(value: Seq<FloatBits>) -> Option<ParseFailure> {
    if value.len() >= 3 {
        None
    } else {
        Some(ParseFailure::ParseVector(short_vector_text()))
    }
}

/// A table fails where it has fewer than 256 entries.
pub open spec fn codebook_failure(value: Seq<FloatBits>) -> Option<ParseFailure> {
    if value.len() >= 256 {
        None
    } else {
        Some(ParseFailure::ParseCodebook(short_codebook_text()))
    }
}

/// The name in `slot` of a list of payload names.
fn file_name<'a>(names: &'a Vec<String>, slot: usize, text: &str) -> (r: ParseResult<&'a String>)
    ensures
        match name_failure(names@, slot as int, text@) {
            Some(f) => r is Err && r->Err_0@ == f,
            None => r is Ok && *r->Ok_0 == names@[slot as int],
        },
{
    if slot < names.len() {
        Ok(&names[slot])
    } else {
        Err(ParseError::InvalidMetaJson(text.to_owned()))
    }
}

/// A copy of the payload called `name`.
fn image(files: &Vec<ArchiveFile>, name: &String) -> (r: ParseResult<Vec<u8>>)
    ensures
        match image_failure(listing(files@), name@) {
            Some(f) => r is Err && r->Err_0@ == f,
            None => r is Ok && Some(r->Ok_0@) == find_file(listing(files@), name@),
        },
{
    match find(files, name) {
        Some(data) => {
            Ok(data.clone())
        },
        None => Err(ParseError::ImageNotFound(name.clone())),
    }
}

// --------------------------------------------------------------- the groups

/// Why the position group cannot be assembled, if it cannot.
pub open spec fn means_failure(files: Entries, m: crate::metajson::Means) -> Option<
    ParseFailure,
> {
    first_failure(
        name_failure(m.files@, 0, "missing means_l file name"@),
        first_failure(
            name_failure(m.files@, 1, "missing means_u file name"@),
            first_failure(
                vector_failure(m.mins@),
                first_failure(
                    vector_failure(m.maxs@),
                    first_failure(
                        image_failure(files, m.files@[0]@),
                        image_failure(files, m.files@[1]@),
                    ),
                ),
            ),
        ),
    )
}

/// Whether `out` is the position group that the manifest describes.
pub open spec fn is_means(files: Entries, m: crate::metajson::Means, out: Means) -> bool {
    &&& out.mins == Vector3::of_list(m.mins@)
    &&& out.maxs == Vector3::of_list(m.maxs@)
    &&& Some(out.means_l@) == find_file(files, m.files@[0]@)
    &&& Some(out.means_u@) == find_file(files, m.files@[1]@)
}

fn assemble_means(files: &Vec<ArchiveFile>, m: crate::metajson::Means) -> (r: ParseResult<Means>)
    ensures
        match means_failure(listing(files@), m) {
            Some(f) => r is Err && r->Err_0@ == f,
            None => r is Ok && is_means(listing(files@), m, r->Ok_0),
        },
{
    let crate::metajson::Means { mins, maxs, files: names } = m;
    let means_l_name = match file_name(&names, 0, "missing means_l file name") {
        Ok(n) => n,
        Err(e) => {
            return Err(e);
        },
    };
    let means_u_name = match file_name(&names, 1, "missing means_u file name") {
        Ok(n) => n,
        Err(e) => {
            return Err(e);
        },
    };
    let mins = match Vector3::try_from(mins) {
        Ok(v) => v,
        Err(e) => {
            return Err(e);
        },
    };
    let maxs = match Vector3::try_from(maxs) {
        Ok(v) => v,
        Err(e) => {
            return Err(e);
        },
    };
    let means_l = match image(files, means_l_name) {
        Ok(d) => d,
        Err(e) => {
            return Err(e);
        },
    };
    let means_u = match image(files, means_u_name) {
        Ok(d) => d,
        Err(e) => {
            return Err(e);
        },
    };
    Ok(Means { mins, maxs, means_u, means_l })
}

/// Why a group of one table and one payload cannot be assembled, if it
/// cannot; `text` names the role of the payload.
pub open spec fn table_group_failure(
    files: Entries,
    codebook: Seq<FloatBits>,
    names: Seq<String>,
    text: Seq<char>,
) -> Option<ParseFailure> {
    first_failure(
        name_failure(names, 0, text),
        first_failure(codebook_failure(codebook), image_failure(files, names[0]@)),
    )
}

/// Assembles the table and the payload of a group of one table and one payload.
fn assemble_table_group(
    files: &Vec<ArchiveFile>,
    codebook: &Vec<FloatBits>,
    names: &Vec<String>,
    text: &str,
) -> (r: ParseResult<(Codebook, Vec<u8>)>)
    ensures
        match table_group_failure(listing(files@), codebook@, names@, text@) {
            Some(f) => r is Err && r->Err_0@ == f,
            None => r is Ok && r->Ok_0.0@ == codebook@.subrange(0, 256) && Some(r->Ok_0.1@)
                == find_file(listing(files@), names@[0]@),
        },
{
    let name = match file_name(names, 0, text) {
        Ok(n) => n,
        Err(e) => {
            return Err(e);
        },
    };
    let table = match Codebook::try_from(codebook.as_slice()) {
        Ok(c) => c,
        Err(e) => {
            return Err(e);
        },
    };
    let data = match image(files, name) {
        Ok(d) => d,
        Err(e) => {
            return Err(e);
        },
    };
    Ok((table, data))
}

/// Why the rotation group cannot be assembled, if it cannot.
pub open spec fn quats_failure(files: Entries, q: crate::metajson::Quats) -> Option<
    ParseFailure,
> {
    first_failure(
        name_failure(q.files@, 0, "missing quats file name"@),
        image_failure(files, q.files@[0]@),
    )
}

/// Why the higher-order colour group cannot be assembled, if it cannot.
pub open spec fn sh_n_failure(files: Entries, s: crate::metajson::ShN) -> Option<
    ParseFailure,
> {
    first_failure(
        name_failure(s.files@, 0, "missing centroids file name"@),
        first_failure(
            name_failure(s.files@, 1, "missing labels file name"@),
            first_failure(
                codebook_failure(s.codebook@),
                first_failure(
                    image_failure(files, s.files@[0]@),
                    image_failure(files, s.files@[1]@),
                ),
            ),
        ),
    )
}

/// Whether `out` is the higher-order colour group that the manifest describes.
pub open spec fn is_sh_n(files: Entries, s: crate::metajson::ShN, out: ShN) -> bool {
    &&& out.count == s.count
    &&& out.bands == s.bands
    &&& out.codebook@ == s.codebook@.subrange(0, 256)
    &&& Some(out.centroids@) == find_file(files, s.files@[0]@)
    &&& Some(out.labels@) == find_file(files, s.files@[1]@)
}

fn assemble_sh_n(files: &Vec<ArchiveFile>, s: &crate::metajson::ShN) -> (r: ParseResult<ShN>)
    ensures
        match sh_n_failure(listing(files@), *s) {
            Some(f) => r is Err && r->Err_0@ == f,
            None => r is Ok && is_sh_n(listing(files@), *s, r->Ok_0),
        },
{
    let centroids_name = match file_name(&s.files, 0, "missing centroids file name") {
        Ok(n) => n,
        Err(e) => {
            return Err(e);
        },
    };
    let labels_name = match file_name(&s.files, 1, "missing labels file name") {
        Ok(n) => n,
        Err(e) => {
            return Err(e);
        },
    };
    let codebook = match Codebook::try_from(s.codebook.as_slice()) {
        Ok(c) => c,
        Err(e) => {
            return Err(e);
        },
    };
    let centroids = match image(files, centroids_name) {
        Ok(d) => d,
        Err(e) => {
            return Err(e);
        },
    };
    let labels = match image(files, labels_name) {
        Ok(d) => d,
        Err(e) => {
            return Err(e);
        },
    };
    Ok(ShN { count: s.count, bands: s.bands, codebook, labels, centroids })
}

// ------------------------------------------------------------ the container

/// The only format version that is accepted.
pub const SUPPORTED_VERSION: i32 = 2;

/// Why a manifest and an archive cannot be assembled, if they cannot. The
/// version is judged first, then the groups in the order position, scale,
/// rotation, base colour, higher-order colour.
pub open spec fn parse_failure(files: Entries, meta: MetaJsonType) -> Option<ParseFailure> {
    if meta.version != SUPPORTED_VERSION {
        Some(ParseFailure::InvalidMetaJson("version is not 2"@))
    } else {
        first_failure(
            means_failure(files, meta.means),
            first_failure(
                table_group_failure(
                    files,
                    meta.scales.codebook@,
                    meta.scales.files@,
                    "missing scales file name"@,
                ),
                first_failure(
                    quats_failure(files, meta.quats),
                    first_failure(
                        table_group_failure(
                            files,
                            meta.sh0.codebook@,
                            meta.sh0.files@,
                            "missing sh0 file name"@,
                        ),
                        match meta.sh_n {
                            Some(s) => sh_n_failure(files, s),
                            None => None,
                        },
                    ),
                ),
            ),
        )
    }
}

/// Whether `sog` is the container that the manifest describes: its
/// parameters are the manifest's, its tables the first 256 entries of the
/// manifest's, and each payload the archive entry of the name that the
/// manifest gives for it.
pub open spec fn is_unpacked(files: Entries, meta: MetaJsonType, sog: SogDataV2) -> bool {
    &&& sog.count == meta.count
    &&& sog.antialias == (meta.antialias == Some(true))
    &&& is_means(files, meta.means, sog.means)
    &&& sog.scales.codebook@ == meta.scales.codebook@.subrange(0, 256)
    &&& Some(sog.scales.scales@) == find_file(files, meta.scales.files@[0]@)
    &&& Some(sog.quats.0@) == find_file(files, meta.quats.files@[0]@)
    &&& sog.sh0.codebook@ == meta.sh0.codebook@.subrange(0, 256)
    &&& Some(sog.sh0.sh0@) == find_file(files, meta.sh0.files@[0]@)
    &&& match meta.sh_n {
        Some(s) => sog.sh_n is Some && is_sh_n(files, s, sog.sh_n->Some_0),
        None => sog.sh_n is None,
    }
}

/// Checks a manifest and joins it with the archive's entries: every payload
/// that the manifest names is copied out of the archive. Nothing is decoded.
pub fn parse_sog(files: &Vec<ArchiveFile>, meta_json: MetaJsonType) -> (r: ParseResult<SogDataV2>)
    ensures
        match parse_failure(listing(files@), meta_json) {
            Some(f) => r is Err && r->Err_0@ == f,
            None => r is Ok && is_unpacked(listing(files@), meta_json, r->Ok_0),
        },
{
    let MetaJsonType { version, count, antialias, means, scales, quats, sh0, sh_n } = meta_json;
    if version != SUPPORTED_VERSION {
        return Err(ParseError::InvalidMetaJson("version is not 2".to_owned()));
    }
    let means = match assemble_means(files, means) {
        Ok(g) => g,
        Err(e) => {
            return Err(e);
        },
    };
    let scales = match assemble_table_group(
        files,
        &scales.codebook,
        &scales.files,
        "missing scales file name",
    ) {
        Ok((codebook, data)) => Scales { codebook, scales: data },
        Err(e) => {
            return Err(e);
        },
    };
    let quats_name = match file_name(&quats.files, 0, "missing quats file name") {
        Ok(n) => n,
        Err(e) => {
            return Err(e);
        },
    };
    let quats = match image(files, quats_name) {
        Ok(d) => Quats(d),
        Err(e) => {
            return Err(e);
        },
    };
    let sh0 = match assemble_table_group(
        files,
        &sh0.codebook,
        &sh0.files,
        "missing sh0 file name",
    ) {
        Ok((codebook, data)) => Sh0 { codebook, sh0: data },
        Err(e) => {
            return Err(e);
        },
    };
    let sh_n = match &sh_n {
        Some(s) => match assemble_sh_n(files, s) {
            Ok(g) => Some(g),
            Err(e) => {
                return Err(e);
            },
        },
        None => None,
    };
    let antialias = match antialias {
        Some(flag) => flag,
        None => false,
    };
    Ok(SogDataV2 { count, antialias, means, scales, quats, sh0, sh_n })
}

// ------------------------------------------------------------ the two steps

/// An archive read into memory, with the text of its manifest.
#[derive(Debug, Clone)]
pub struct Opened {
    pub files: Vec<ArchiveFile>,
    pub manifest: String,
}

/// Why a container cannot be opened, if it cannot: the archive reader's
/// error, or the failure to find the manifest's text among the entries.
pub open spec fn open_failure(file: Seq<u8>) -> Option<Failure> {
    match unzipped(file) {
        Err(e) => Some(Failure::Unzip(e)),
        Ok(entries) => match manifest_failure(entries) {
            Some(f) => Some(Failure::SogParse(f)),
            None => None,
        },
    }
}

/// The first step of unpacking: reads the archive and finds the text of its
/// manifest. An archive without an entry `meta.json` fails here, so that
/// none reaches the second step.
pub fn open(file: &[u8]) -> (r: Result<Opened, Error>)
    ensures
        match open_failure(file@) {
            Some(f) => r is Err && r->Err_0@ == f,
            None => r is Ok && unzipped(file@) == Ok::<Entries, zip::result::ZipError>(
                listing(r->Ok_0.files@),
            ) && Some(encode_utf8(r->Ok_0.manifest@)) == find_file(
                listing(r->Ok_0.files@),
                manifest_name(),
            ),
        },
{
    let files = match unzip(file) {
        Ok(f) => f,
        Err(e) => {
            return Err(Error::Unzip(e));
        },
    };
    match manifest_text(&files) {
        Ok(manifest) => Ok(Opened { files, manifest }),
        Err(e) => Err(Error::SogParse(e)),
    }
}

/// Why unpacking fails, if it fails: the archive has no manifest or one that
/// is no text; else the JSON reader's refusal, reported with its own text;
/// else the first failure of the manifest's checks.
pub open spec fn unpack_failure(files: Entries, manifest: Result<MetaJsonType, String>) -> Option<
    Failure,
> {
    match manifest_failure(files) {
        Some(f) => Some(Failure::SogParse(f)),
        None => match manifest {
            Err(text) => Some(Failure::SogParse(ParseFailure::InvalidMetaJson(text@))),
            Ok(meta) => match parse_failure(files, meta) {
                Some(f) => Some(Failure::SogParse(f)),
                None => None,
            },
        },
    }
}

/// The second step of unpacking: takes the entries of the opened archive
/// and what the JSON reader made of the manifest's text, either the manifest
/// or the reader's account of why the text does not fit the schema, and
/// assembles the container.
///
/// The entries must hold the manifest that was read: entries without an
/// entry `meta.json`, or with one that is no UTF-8 text, are refused before
/// the reader's verdict is looked at.
pub fn unpack(files: &Vec<ArchiveFile>, manifest: Result<MetaJsonType, String>) -> (r: Result<
    SogDataV2,
    Error,
>)
    ensures
        match unpack_failure(listing(files@), manifest) {
            Some(f) => r is Err && r->Err_0@ == f,
            None => r is Ok && is_unpacked(listing(files@), manifest->Ok_0, r->Ok_0),
        },
{
    match manifest_text(files) {
        Ok(_) => {},
        Err(e) => {
            return Err(Error::SogParse(e));
        },
    }
    match manifest {
        Err(text) => Err(Error::SogParse(ParseError::InvalidMetaJson(text))),
        Ok(meta) => match parse_sog(files, meta) {
            Ok(sog) => Ok(sog),
            Err(e) => Err(Error::SogParse(e)),
        },
    }
}

/// Both phases in one call: assembles the container as [`unpack`] does and
/// decodes it as [`decode`] does. A failure of the first phase is returned
/// before any payload is decoded.
pub fn unpack_then_decode(files: &Vec<ArchiveFile>, manifest: Result<MetaJsonType, String>) -> (r:
    Result<Splat, Error>)
    ensures
        match unpack_failure(listing(files@), manifest) {
            Some(f) => r is Err && r->Err_0@ == f,
            None => exists|sog: SogDataV2|
                is_unpacked(listing(files@), manifest->Ok_0, sog) && decoded_splat(r) == splat_of(
                    sog,
                ),
        },
{
    let sog = match unpack(files, manifest) {
        Ok(sog) => sog,
        Err(e) => {
            return Err(e);
        },
    };
    decode(&sog)
}

} // verus!
