use sog_decoder::error::{DecodeError, Error, ParseError};
use sog_decoder::metajson::{Means, MetaJsonType, Quats, Scales, Sh0, ShN};
use sog_decoder::types::ColorSlot::{Opacity, Table};
use sog_decoder::types::Coordinate;
use sog_decoder::types::QuatSlot::{Largest, Stored};
use sog_decoder::unpack::open;
use sog_decoder::{decode, unpack, unpack_then_decode};
use std::io::Write;

fn rgba(pixels: &[u8], width: u32, height: u32) -> Vec<u8> {
    let mut out = Vec::new();
    image_webp::WebPEncoder::new(&mut out)
        .encode(pixels, width, height, image_webp::ColorType::Rgba8)
        .unwrap();
    out
}

fn rgb(pixels: &[u8], width: u32, height: u32) -> Vec<u8> {
    let mut out = Vec::new();
    image_webp::WebPEncoder::new(&mut out)
        .encode(pixels, width, height, image_webp::ColorType::Rgb8)
        .unwrap();
    out
}

fn archive(entries: &[(&str, Vec<u8>)]) -> Vec<u8> {
    let mut writer = zip::ZipWriter::new(std::io::Cursor::new(Vec::new()));
    let options = zip::write::SimpleFileOptions::default()
        .compression_method(zip::CompressionMethod::Deflated);
    for (name, data) in entries {
        writer.start_file(*name, options).unwrap();
        writer.write_all(data).unwrap();
    }
    writer.finish().unwrap().into_inner()
}

fn raws(out: &[Coordinate]) -> Vec<u16> {
    out.iter().map(|c| c.raw).collect()
}

fn numbers(v: &serde_json::Value, key: &str) -> Result<Vec<u32>, String> {
    let list = v.get(key).and_then(|x| x.as_array()).ok_or(format!("missing field `{}`", key))?;
    list.iter()
        .map(|x| x.as_f64().map(|f| (f as f32).to_bits()).ok_or("not a number".to_string()))
        .collect()
}

fn names(v: &serde_json::Value) -> Result<Vec<String>, String> {
    let list = v.get("files").and_then(|x| x.as_array()).ok_or("missing field `files`")?;
    list.iter().map(|x| x.as_str().map(str::to_string).ok_or("not a name".to_string())).collect()
}

fn integer(v: &serde_json::Value, key: &str) -> Result<i64, String> {
    v.get(key).and_then(|x| x.as_i64()).ok_or(format!("missing field `{}`", key))
}

fn group<'a>(v: &'a serde_json::Value, key: &str) -> Result<&'a serde_json::Value, String> {
    v.get(key).ok_or(format!("missing field `{}`", key))
}

fn read_manifest(text: &str) -> Result<MetaJsonType, String> {
    let v: serde_json::Value = serde_json::from_str(text).map_err(|e| e.to_string())?;
    let means = group(&v, "means")?;
    let scales = group(&v, "scales")?;
    let sh0 = group(&v, "sh0")?;
    let sh_n = match v.get("shN") {
        Some(s) => Some(ShN {
            count: integer(s, "count")? as i32,
            bands: integer(s, "bands")? as i32,
            codebook: numbers(s, "codebook")?,
            files: names(s)?,
        }),
        None => None,
    };
    Ok(MetaJsonType {
        version: integer(&v, "version")? as i32,
        count: integer(&v, "count")? as u32,
        antialias: v.get("antialias").and_then(|x| x.as_bool()),
        means: Means {
            mins: numbers(means, "mins")?,
            maxs: numbers(means, "maxs")?,
            files: names(means)?,
        },
        scales: Scales { codebook: numbers(scales, "codebook")?, files: names(scales)? },
        quats: Quats { files: names(group(&v, "quats")?)? },
        sh0: Sh0 { codebook: numbers(sh0, "codebook")?, files: names(sh0)? },
        sh_n,
    })
}

fn book_text() -> String {
    let entries: Vec<String> = (0..256).map(|i| format!("{}", i as f32 * 0.5)).collect();
    format!("[{}]", entries.join(","))
}

fn entry(i: u8) -> u32 {
    (i as f32 * 0.5).to_bits()
}

fn manifest_text(version: i32, with_sh: bool) -> String {
    let sh = if with_sh {
        format!(
            ",\"shN\":{{\"count\":2,\"bands\":2,\"codebook\":{},\"files\":[\"c.webp\",\"l.webp\"]}}",
            book_text()
        )
    } else {
        String::new()
    };
    format!(
        "{{\"version\":{},\"count\":2,\"antialias\":true,\
         \"means\":{{\"mins\":[0,0,0],\"maxs\":[1,1,1],\"files\":[\"ml.webp\",\"mu.webp\"]}},\
         \"scales\":{{\"codebook\":{},\"files\":[\"s.webp\"]}},\
         \"quats\":{{\"files\":[\"q.webp\"]}},\
         \"sh0\":{{\"codebook\":{},\"files\":[\"sh0.webp\"]}}{}}}",
        version,
        book_text(),
        book_text(),
        sh
    )
}

fn centroid_bytes() -> Vec<u8> {
    (0..48).map(|i| (i * 3 + 1) as u8).collect()
}

fn container(version: i32, with_sh: bool) -> Vec<u8> {
    archive(&[
        ("meta.json", manifest_text(version, with_sh).into_bytes()),
        ("ml.webp", rgba(&[0, 0, 0, 255, 0xff, 0x02, 0x03, 255], 2, 1)),
        ("mu.webp", rgba(&[0, 0, 0, 255, 0xff, 0x20, 0x30, 255], 2, 1)),
        ("s.webp", rgba(&[1, 2, 3, 255, 4, 5, 6, 255], 2, 1)),
        ("q.webp", rgba(&[128, 128, 128, 252, 9, 8, 7, 255], 2, 1)),
        ("sh0.webp", rgba(&[10, 20, 30, 0, 40, 50, 60, 255], 2, 1)),
        ("c.webp", rgb(&centroid_bytes(), 16, 1)),
        ("l.webp", rgba(&[1, 0, 0, 255, 0, 0, 0, 255], 2, 1)),
    ])
}

#[test]
fn container_decodes_from_its_bytes() {
    let opened = open(&container(2, true)).unwrap();
    let sog = unpack(&opened.files, read_manifest(&opened.manifest)).unwrap();
    assert_eq!(sog.count, 2);
    assert!(sog.antialias);
    assert_eq!(sog.sh_n.as_ref().unwrap().bands, 2);
    let splat = decode(&sog).unwrap();
    assert_eq!(splat.count, 2);
    assert!(splat.antialias);
    assert_eq!(splat.sh_degree, 2);
    assert_eq!(raws(&splat.position), vec![0, 0, 0, 0xffff, 0x2002, 0x3003]);
    assert_eq!(
        splat.rotation,
        vec![
            Largest(128, 128, 128),
            Stored(128),
            Stored(128),
            Stored(128),
            Stored(9),
            Stored(8),
            Stored(7),
            Largest(9, 8, 7)
        ]
    );
    assert_eq!(splat.scale, vec![entry(1), entry(2), entry(3), entry(4), entry(5), entry(6)]);
    assert_eq!(
        splat.color,
        vec![
            Table(entry(10)),
            Table(entry(20)),
            Table(entry(30)),
            Opacity(0),
            Table(entry(40)),
            Table(entry(50)),
            Table(entry(60)),
            Opacity(255)
        ]
    );
    let sh = splat.sh.unwrap();
    assert_eq!(sh.len(), 2 * 8 * 3);
    let bytes = centroid_bytes();
    let palette = [1usize, 0];
    for i in 0..2 {
        for ch in 0..3 {
            for cf in 0..8 {
                assert_eq!(
                    sh[(i * 3 + ch) * 8 + cf],
                    entry(bytes[(palette[i] * 8 + cf) * 3 + ch])
                );
            }
        }
    }
}

#[test]
fn both_phases_in_one_call() {
    let opened = open(&container(2, false)).unwrap();
    let manifest = read_manifest(&opened.manifest);
    let splat = unpack_then_decode(&opened.files, manifest).unwrap();
    assert_eq!(splat.sh_degree, 0);
    assert!(splat.sh.is_none());
    assert_eq!(raws(&splat.position), vec![0, 0, 0, 0xffff, 0x2002, 0x3003]);
    assert_eq!(splat.rotation.len(), 8);
    assert_eq!(splat.scale.len(), 6);
    assert_eq!(splat.color.len(), 8);
}

#[test]
fn version_one_container_is_refused() {
    let opened = open(&container(1, true)).unwrap();
    match unpack(&opened.files, read_manifest(&opened.manifest)) {
        Err(Error::SogParse(ParseError::InvalidMetaJson(m))) => assert_eq!(m, "version is not 2"),
        other => panic!("unexpected: {:?}", other),
    }
    let manifest = read_manifest(&opened.manifest);
    assert!(matches!(
        unpack_then_decode(&opened.files, manifest),
        Err(Error::SogParse(ParseError::InvalidMetaJson(_)))
    ));
}

#[test]
fn manifest_that_fits_no_schema_is_refused() {
    let bytes = archive(&[("meta.json", b"{\"version\": 2}".to_vec())]);
    let opened = open(&bytes).unwrap();
    let manifest = read_manifest(&opened.manifest);
    assert!(manifest.is_err());
    match unpack_then_decode(&opened.files, manifest) {
        Err(Error::SogParse(ParseError::InvalidMetaJson(m))) => {
            assert_eq!(m, "missing field `means`")
        }
        other => panic!("unexpected: {:?}", other),
    }
}

#[test]
fn second_phase_failure_comes_through() {
    let mut entries = vec![
        ("meta.json", manifest_text(2, false).into_bytes()),
        ("ml.webp", rgba(&[0, 0, 0, 255], 1, 1)),
        ("mu.webp", rgba(&[0, 0, 0, 255], 1, 1)),
        ("s.webp", rgba(&[1, 2, 3, 255, 4, 5, 6, 255], 2, 1)),
        ("q.webp", rgba(&[128, 128, 128, 252, 9, 8, 7, 255], 2, 1)),
        ("sh0.webp", rgba(&[10, 20, 30, 0, 40, 50, 60, 255], 2, 1)),
    ];
    let opened = open(&archive(&entries)).unwrap();
    let manifest = read_manifest(&opened.manifest);
    assert!(matches!(
        unpack_then_decode(&opened.files, manifest),
        Err(Error::SogDecode(DecodeError::InvalidSize(_)))
    ));
    entries[1].1 = b"no image".to_vec();
    let opened = open(&archive(&entries)).unwrap();
    let manifest = read_manifest(&opened.manifest);
    assert!(matches!(
        unpack_then_decode(&opened.files, manifest),
        Err(Error::SogDecode(DecodeError::DecodeImage(_)))
    ));
}
