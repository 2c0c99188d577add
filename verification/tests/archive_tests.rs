use std::io::Write;

use haxrs::archive::{entry_name_safe, unpack_tgz, unpack_zip};

fn zip_with(entries: &[(&str, &[u8])]) -> Vec<u8> {
    let cursor = std::io::Cursor::new(Vec::new());
    let mut writer = zip::ZipWriter::new(cursor);
    let options = zip::write::SimpleFileOptions::default();
    for (name, data) in entries {
        writer.start_file(*name, options).unwrap();
        writer.write_all(data).unwrap();
    }
    writer.finish().unwrap().into_inner()
}

// Writes one raw tar entry; the writer crate refuses `..` in names, and the
// guard under test must see exactly such names.
fn raw_tar_entry(out: &mut Vec<u8>, name: &str, data: &[u8]) {
    let mut header = [0u8; 512];
    header[..name.len()].copy_from_slice(name.as_bytes());
    header[100..107].copy_from_slice(b"0000644");
    header[108..115].copy_from_slice(b"0000000");
    header[116..123].copy_from_slice(b"0000000");
    let size = format!("{:011o}", data.len());
    header[124..135].copy_from_slice(size.as_bytes());
    header[136..147].copy_from_slice(b"00000000000");
    header[156] = b'0';
    header[148..156].copy_from_slice(b"        ");
    let sum: u32 = header.iter().map(|b| *b as u32).sum();
    let chksum = format!("{:06o}\0 ", sum);
    header[148..156].copy_from_slice(chksum.as_bytes());
    out.extend_from_slice(&header);
    out.extend_from_slice(data);
    let pad = (512 - data.len() % 512) % 512;
    out.extend(std::iter::repeat(0u8).take(pad));
}

fn tgz_with(entries: &[(&str, &[u8])]) -> Vec<u8> {
    let mut tar_bytes: Vec<u8> = Vec::new();
    for (name, data) in entries {
        raw_tar_entry(&mut tar_bytes, name, data);
    }
    tar_bytes.extend(std::iter::repeat(0u8).take(1024));
    let mut encoder = flate2::write::GzEncoder::new(Vec::new(), flate2::Compression::default());
    encoder.write_all(&tar_bytes).unwrap();
    encoder.finish().unwrap()
}

#[test]
fn zip_extraction_keeps_safe_entries() {
    let data = zip_with(&[("bin/loclx", b"ELF"), ("readme.txt", b"hello")]);
    let out = unpack_zip(&data, "/srv/.server").unwrap();
    assert_eq!(out.len(), 2);
    assert_eq!(out[0].0, "/srv/.server/bin/loclx");
    assert_eq!(out[0].1, b"ELF");
    assert_eq!(out[1].0, "/srv/.server/readme.txt");
    assert_eq!(out[1].1, b"hello");
}

#[test]
fn zip_extraction_rejects_escaping_entry() {
    let data = zip_with(&[("../../evil", b"payload"), ("good", b"fine")]);
    let out = unpack_zip(&data, "/srv/.server").unwrap();
    // The escaping entry is rejected, not written; the safe one survives.
    assert_eq!(out.len(), 1);
    assert_eq!(out[0].0, "/srv/.server/good");
    assert_eq!(out[0].1, b"fine");
}

#[test]
fn zip_extraction_rejects_absolute_and_drive_entries() {
    let data = zip_with(&[("/etc/passwd", b"x"), ("c:evil", b"y"), ("ok/file", b"z")]);
    let out = unpack_zip(&data, "/tmp/target").unwrap();
    assert_eq!(out.len(), 1);
    assert_eq!(out[0].0, "/tmp/target/ok/file");
}

#[test]
fn zip_extraction_fails_on_malformed_archive() {
    let data = vec![0u8, 1, 2, 3, 4, 5];
    assert!(unpack_zip(&data, "/tmp/target").is_err());
}

#[test]
fn tgz_extraction_keeps_safe_and_rejects_escaping() {
    let data = tgz_with(&[("inner/tool", b"bytes"), ("../escape", b"bad")]);
    let out = unpack_tgz(&data, "/srv/.server").unwrap();
    assert_eq!(out.len(), 1);
    assert_eq!(out[0].0, "/srv/.server/inner/tool");
    assert_eq!(out[0].1, b"bytes");
}

#[test]
fn tgz_extraction_fails_on_malformed_stream() {
    let data = vec![9u8; 32];
    assert!(unpack_tgz(&data, "/tmp/target").is_err());
}

#[test]
fn entry_name_guard() {
    assert!(entry_name_safe("plain"));
    assert!(entry_name_safe("dir/sub/file.txt"));
    assert!(entry_name_safe("dots..in..name"));
    assert!(!entry_name_safe("../../evil"));
    assert!(!entry_name_safe("a/../b"));
    assert!(!entry_name_safe(".."));
    assert!(!entry_name_safe("/rooted"));
    assert!(!entry_name_safe("back\\slash"));
    assert!(!entry_name_safe("c:drive"));
    assert!(!entry_name_safe(""));
}
