use sog_decoder::archive::{find, unzip, ArchiveFile};
use sog_decoder::error::{Error, ParseError};
use sog_decoder::metajson::{Means, MetaJsonType, Quats, Scales, Sh0, ShN};
use sog_decoder::unpack::{manifest_text, open, parse_sog};
use sog_decoder::unpack;
use std::io::Write;

fn archive(entries: &[(&str, &[u8])], deflate: bool) -> Vec<u8> {
    let mut writer = zip::ZipWriter::new(std::io::Cursor::new(Vec::new()));
    let method = if deflate {
        zip::CompressionMethod::Deflated
    } else {
        zip::CompressionMethod::Stored
    };
    let options = zip::write::SimpleFileOptions::default().compression_method(method);
    for (name, data) in entries {
        writer.start_file(*name, options).unwrap();
        writer.write_all(data).unwrap();
    }
    writer.finish().unwrap().into_inner()
}

fn file(name: &str, data: &[u8]) -> ArchiveFile {
    ArchiveFile { name: name.to_string(), data: data.to_vec() }
}

fn names(list: &[&str]) -> Vec<String> {
    list.iter().map(|s| s.to_string()).collect()
}

fn floats(list: &[f32]) -> Vec<u32> {
    list.iter().map(|x| x.to_bits()).collect()
}

fn book(len: usize) -> Vec<u32> {
    (0..len).map(|i| (i as f32 * 0.25).to_bits()).collect()
}

fn manifest() -> MetaJsonType {
    MetaJsonType {
        version: 2,
        count: 5,
        antialias: None,
        means: Means {
            mins: floats(&[-1.0, -2.0, -3.0]),
            maxs: floats(&[1.0, 2.0, 3.0, 4.0]),
            files: names(&["means_l.webp", "means_u.webp"]),
        },
        scales: Scales { codebook: book(256), files: names(&["scales.webp"]) },
        quats: Quats { files: names(&["quats.webp"]) },
        sh0: Sh0 { codebook: book(300), files: names(&["sh0.webp"]) },
        sh_n: None,
    }
}

fn sh_n() -> ShN {
    ShN {
        count: 64,
        bands: 2,
        codebook: book(256),
        files: names(&["shN_centroids.webp", "shN_labels.webp"]),
    }
}

fn files() -> Vec<ArchiveFile> {
    vec![
        file("meta.json", b"{}"),
        file("means_l.webp", b"low"),
        file("means_u.webp", b"high"),
        file("scales.webp", b"scales"),
        file("quats.webp", b"quats"),
        file("sh0.webp", b"sh0"),
        file("shN_centroids.webp", b"centroids"),
        file("shN_labels.webp", b"labels"),
    ]
}

fn without(name: &str) -> Vec<ArchiveFile> {
    files().into_iter().filter(|f| f.name != name).collect()
}

fn invalid(r: Result<sog_decoder::types::SogDataV2, ParseError>) -> String {
    match r {
        Err(ParseError::InvalidMetaJson(m)) => m,
        other => panic!("unexpected: {:?}", other),
    }
}

fn not_found(r: Result<sog_decoder::types::SogDataV2, ParseError>) -> String {
    match r {
        Err(ParseError::ImageNotFound(m)) => m,
        other => panic!("unexpected: {:?}", other),
    }
}

#[test]
fn archive_entries_are_read_in_order() {
    let big: Vec<u8> = (0..5000u32).map(|i| (i % 7) as u8).collect();
    for deflate in [false, true] {
        let bytes = archive(&[("meta.json", b"{\"a\":1}"), ("x.webp", &big), ("empty", b"")], deflate);
        let files = unzip(&bytes).unwrap();
        assert_eq!(files.len(), 3);
        assert_eq!(files[0].name, "meta.json");
        assert_eq!(files[0].data, b"{\"a\":1}".to_vec());
        assert_eq!(files[1].name, "x.webp");
        assert_eq!(files[1].data, big);
        assert_eq!(files[2].name, "empty");
        assert!(files[2].data.is_empty());
    }
}

#[test]
fn bytes_that_are_no_archive_are_refused() {
    assert!(unzip(b"this is no archive").is_err());
    assert!(unzip(b"").is_err());
    assert!(matches!(open(b"PK\x03\x04 broken"), Err(Error::Unzip(_))));
}

#[test]
fn later_entry_replaces_an_earlier_one() {
    let list = vec![file("a", b"first"), file("b", b"other"), file("a", b"second")];
    assert_eq!(find(&list, &"a".to_string()).unwrap(), &b"second".to_vec());
    assert_eq!(find(&list, &"b".to_string()).unwrap(), &b"other".to_vec());
    assert!(find(&list, &"c".to_string()).is_none());
    assert!(find(&Vec::new(), &"a".to_string()).is_none());
}

#[test]
fn archive_without_manifest() {
    let bytes = archive(&[("means_l.webp", b"x"), ("quats.webp", b"y")], false);
    assert!(matches!(open(&bytes), Err(Error::SogParse(ParseError::MetaJsonNotFound))));
    let list = unzip(&bytes).unwrap();
    assert!(matches!(manifest_text(&list), Err(ParseError::MetaJsonNotFound)));
}

#[test]
fn manifest_that_is_not_text() {
    let bytes = archive(&[("meta.json", &[0x7b, 0xff, 0xfe, 0x7d])], false);
    match open(&bytes) {
        Err(Error::SogParse(ParseError::InvalidMetaJson(m))) => {
            assert_eq!(m, "encoding is not utf8")
        }
        other => panic!("unexpected: {:?}", other),
    }
}

#[test]
fn opened_archive_has_the_manifest_text() {
    let text = "{\"version\": 2, \"note\": \"\u{00e9}\u{4e2d}\"}";
    let bytes = archive(&[("a.webp", b"abc"), ("meta.json", text.as_bytes())], true);
    let opened = open(&bytes).unwrap();
    assert_eq!(opened.manifest, text);
    assert_eq!(opened.files.len(), 2);
    assert_eq!(opened.files[0].data, b"abc".to_vec());
}

#[test]
fn manifest_of_version_one() {
    let mut meta = manifest();
    meta.version = 1;
    match unpack(&files(), Ok(meta)) {
        Err(Error::SogParse(ParseError::InvalidMetaJson(m))) => assert_eq!(m, "version is not 2"),
        other => panic!("unexpected: {:?}", other),
    }
    let mut meta = manifest();
    meta.version = 3;
    assert_eq!(invalid(parse_sog(&files(), meta)), "version is not 2");
}

#[test]
fn manifest_that_the_reader_refused() {
    match unpack(&files(), Err("missing field `count` at line 1 column 2".to_string())) {
        Err(Error::SogParse(ParseError::InvalidMetaJson(m))) => {
            assert_eq!(m, "missing field `count` at line 1 column 2")
        }
        other => panic!("unexpected: {:?}", other),
    }
}

#[test]
fn container_is_the_join_of_manifest_and_archive() {
    let mut meta = manifest();
    meta.sh_n = Some(sh_n());
    let sog = unpack(&files(), Ok(meta)).unwrap();
    assert_eq!(sog.count, 5);
    assert!(!sog.antialias);
    assert_eq!(f32::from_bits(sog.means.mins.x), -1.0);
    assert_eq!(f32::from_bits(sog.means.mins.y), -2.0);
    assert_eq!(f32::from_bits(sog.means.mins.z), -3.0);
    assert_eq!(f32::from_bits(sog.means.maxs.x), 1.0);
    assert_eq!(f32::from_bits(sog.means.maxs.z), 3.0);
    assert_eq!(sog.means.means_l, b"low".to_vec());
    assert_eq!(sog.means.means_u, b"high".to_vec());
    assert_eq!(sog.scales.scales, b"scales".to_vec());
    assert_eq!(sog.scales.codebook.0.to_vec(), book(256));
    assert_eq!(sog.quats.0, b"quats".to_vec());
    assert_eq!(sog.sh0.sh0, b"sh0".to_vec());
    assert_eq!(sog.sh0.codebook.0.to_vec(), book(256));
    let group = sog.sh_n.unwrap();
    assert_eq!(group.count, 64);
    assert_eq!(group.bands, 2);
    assert_eq!(group.centroids, b"centroids".to_vec());
    assert_eq!(group.labels, b"labels".to_vec());
    assert_eq!(group.codebook.0.to_vec(), book(256));
}

#[test]
fn antialias_flag_is_taken_over() {
    let mut meta = manifest();
    meta.antialias = Some(true);
    assert!(parse_sog(&files(), meta).unwrap().antialias);
    let mut meta = manifest();
    meta.antialias = Some(false);
    assert!(!parse_sog(&files(), meta).unwrap().antialias);
    assert!(parse_sog(&files(), manifest()).unwrap().sh_n.is_none());
}

#[test]
fn missing_file_name_names_the_role() {
    let mut meta = manifest();
    meta.means.files = Vec::new();
    assert_eq!(invalid(parse_sog(&files(), meta)), "missing means_l file name");
    let mut meta = manifest();
    meta.means.files = names(&["means_l.webp"]);
    assert_eq!(invalid(parse_sog(&files(), meta)), "missing means_u file name");
    let mut meta = manifest();
    meta.scales.files = Vec::new();
    assert_eq!(invalid(parse_sog(&files(), meta)), "missing scales file name");
    let mut meta = manifest();
    meta.quats.files = Vec::new();
    assert_eq!(invalid(parse_sog(&files(), meta)), "missing quats file name");
    let mut meta = manifest();
    meta.sh0.files = Vec::new();
    assert_eq!(invalid(parse_sog(&files(), meta)), "missing sh0 file name");
    let mut meta = manifest();
    let mut group = sh_n();
    group.files = Vec::new();
    meta.sh_n = Some(group);
    assert_eq!(invalid(parse_sog(&files(), meta)), "missing centroids file name");
    let mut meta = manifest();
    let mut group = sh_n();
    group.files = names(&["shN_centroids.webp"]);
    meta.sh_n = Some(group);
    assert_eq!(invalid(parse_sog(&files(), meta)), "missing labels file name");
}

#[test]
fn missing_payload_is_named() {
    for name in ["means_l.webp", "means_u.webp", "scales.webp", "quats.webp", "sh0.webp"] {
        assert_eq!(not_found(parse_sog(&without(name), manifest())), name);
    }
    for name in ["shN_centroids.webp", "shN_labels.webp"] {
        let mut meta = manifest();
        meta.sh_n = Some(sh_n());
        assert_eq!(not_found(parse_sog(&without(name), meta)), name);
    }
    assert!(parse_sog(&without("shN_labels.webp"), manifest()).is_ok());
}

#[test]
fn short_bounds_and_tables_are_refused() {
    let mut meta = manifest();
    meta.means.mins = floats(&[0.0, 1.0]);
    assert!(matches!(parse_sog(&files(), meta), Err(ParseError::ParseVector(_))));
    let mut meta = manifest();
    meta.means.maxs = Vec::new();
    assert!(matches!(parse_sog(&files(), meta), Err(ParseError::ParseVector(_))));
    let mut meta = manifest();
    meta.scales.codebook = book(255);
    assert!(matches!(parse_sog(&files(), meta), Err(ParseError::ParseCodebook(_))));
    let mut meta = manifest();
    meta.sh0.codebook = book(0);
    assert!(matches!(parse_sog(&files(), meta), Err(ParseError::ParseCodebook(_))));
    let mut meta = manifest();
    let mut group = sh_n();
    group.codebook = book(10);
    meta.sh_n = Some(group);
    assert!(matches!(parse_sog(&files(), meta), Err(ParseError::ParseCodebook(_))));
}

#[test]
fn earlier_check_wins() {
    let mut meta = manifest();
    meta.version = 1;
    meta.means.files = Vec::new();
    assert_eq!(invalid(parse_sog(&files(), meta)), "version is not 2");
    let mut meta = manifest();
    meta.means.mins = Vec::new();
    meta.means.files = names(&["means_l.webp"]);
    assert_eq!(invalid(parse_sog(&files(), meta)), "missing means_u file name");
    let mut meta = manifest();
    meta.means.mins = Vec::new();
    assert!(matches!(
        parse_sog(&without("means_l.webp"), meta),
        Err(ParseError::ParseVector(_))
    ));
    let mut meta = manifest();
    meta.scales.codebook = book(1);
    assert!(matches!(
        parse_sog(&without("scales.webp"), meta),
        Err(ParseError::ParseCodebook(_))
    ));
    let mut meta = manifest();
    meta.quats.files = Vec::new();
    assert_eq!(not_found(parse_sog(&without("scales.webp"), meta)), "scales.webp");
}

#[test]
fn entries_without_manifest_do_not_unpack() {
    for list in [Vec::new(), without("meta.json")] {
        assert!(matches!(
            unpack(&list, Ok(manifest())),
            Err(Error::SogParse(ParseError::MetaJsonNotFound))
        ));
        assert!(matches!(
            unpack(&list, Err("refused".to_string())),
            Err(Error::SogParse(ParseError::MetaJsonNotFound))
        ));
        assert!(matches!(
            sog_decoder::unpack_then_decode(&list, Ok(manifest())),
            Err(Error::SogParse(ParseError::MetaJsonNotFound))
        ));
    }
    for bytes in [archive(&[], false), archive(&[("a.webp", b"x"), ("b.webp", b"y")], true)] {
        assert!(matches!(open(&bytes), Err(Error::SogParse(ParseError::MetaJsonNotFound))));
        let list = unzip(&bytes).unwrap();
        assert!(matches!(
            unpack(&list, Ok(manifest())),
            Err(Error::SogParse(ParseError::MetaJsonNotFound))
        ));
    }
}

#[test]
fn entries_with_a_manifest_that_is_no_text_do_not_unpack() {
    let mut list = without("meta.json");
    list.push(file("meta.json", &[0xc3, 0x28]));
    match unpack(&list, Ok(manifest())) {
        Err(Error::SogParse(ParseError::InvalidMetaJson(m))) => {
            assert_eq!(m, "encoding is not utf8")
        }
        other => panic!("unexpected: {:?}", other),
    }
    assert!(parse_sog(&list, manifest()).is_ok());
}
