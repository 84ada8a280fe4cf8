use std::io::{Cursor, Write};

use godspeed::archive::{
    extract_zip, plan_extraction, read_entries, ArchiveEntry, EntryHead, ExtractStep,
};
use godspeed::error::{AppError, ErrorKind};
use zip::write::SimpleFileOptions;
use zip::{CompressionMethod, ZipWriter};

fn entry(enclosed: Option<&str>, is_dir: bool, unix_mode: Option<u32>, data: &[u8]) -> ArchiveEntry {
    ArchiveEntry {
        head: EntryHead { enclosed: enclosed.map(|p| p.to_string()), is_dir, unix_mode },
        data: data.to_vec(),
    }
}

/// A package with a directory, a nested executable, an entry that would
/// leave the destination, an entry with a rooted path and a plain file, in
/// this order.
fn package() -> Vec<u8> {
    let mut writer = ZipWriter::new(Cursor::new(Vec::new()));
    let stored = SimpleFileOptions::default().compression_method(CompressionMethod::Stored);
    let deflated = SimpleFileOptions::default().compression_method(CompressionMethod::Deflated);
    writer.add_directory("engine/bin/", stored).unwrap();
    writer.start_file("engine/bin/yt-dlp", deflated.unix_permissions(0o755)).unwrap();
    writer.write_all(b"#!/bin/sh\necho fetch\n").unwrap();
    writer.start_file("../outside.txt", stored).unwrap();
    writer.write_all(b"escape").unwrap();
    writer.start_file("/etc/absolute", stored).unwrap();
    writer.write_all(b"absolute").unwrap();
    writer.start_file("engine/notes.txt", deflated.unix_permissions(0o644)).unwrap();
    writer.write_all(&[b'n'; 4096]).unwrap();
    writer.finish().unwrap().into_inner()
}

fn sep(path: &str) -> String {
    path.replace('/', std::path::MAIN_SEPARATOR_STR)
}

#[test]
fn entries_without_a_safe_path_have_no_step() {
    let steps = plan_extraction(vec![
        entry(Some("a"), true, None, b""),
        entry(None, false, Some(0o644), b"evil"),
        entry(Some("a/b.txt"), false, Some(0o100644), b"good"),
        entry(None, true, None, b""),
    ]);
    assert_eq!(
        steps,
        vec![
            ExtractStep::CreateDirectory { path: "a".to_string() },
            ExtractStep::WriteFile { path: "a/b.txt".to_string(), data: b"good".to_vec(), unix_mode: Some(0o100644) },
        ]
    );
}

#[test]
fn an_empty_package_has_an_empty_plan() {
    assert_eq!(plan_extraction(vec![]), vec![]);
    assert_eq!(plan_extraction(vec![entry(None, false, None, b"x")]), vec![]);
}

#[test]
fn steps_stand_in_stored_order_with_their_bytes() {
    let steps = plan_extraction(vec![
        entry(Some("z.bin"), false, None, &[1, 2, 3]),
        entry(Some("a.bin"), false, Some(0o755), &[]),
        entry(Some("d"), true, Some(0o40755), b"ignored"),
    ]);
    assert_eq!(
        steps,
        vec![
            ExtractStep::WriteFile { path: "z.bin".to_string(), data: vec![1, 2, 3], unix_mode: None },
            ExtractStep::WriteFile { path: "a.bin".to_string(), data: vec![], unix_mode: Some(0o755) },
            ExtractStep::CreateDirectory { path: "d".to_string() },
        ]
    );
}

#[test]
fn a_real_package_is_read_in_stored_order() {
    let entries = read_entries(package()).unwrap();
    assert_eq!(entries.len(), 5);
    assert_eq!(entries[0].head.enclosed, Some(sep("engine/bin")));
    assert!(entries[0].head.is_dir);
    assert!(entries[0].data.is_empty());
    assert_eq!(entries[1].head.enclosed, Some(sep("engine/bin/yt-dlp")));
    assert!(!entries[1].head.is_dir);
    assert_eq!(entries[1].head.unix_mode.map(|m| m & 0o777), Some(0o755));
    assert_eq!(entries[1].data, b"#!/bin/sh\necho fetch\n".to_vec());
    assert_eq!(entries[2].head.enclosed, None);
    assert!(entries[2].data.is_empty());
    assert_eq!(entries[3].head.enclosed, Some(sep("etc/absolute")));
    assert_eq!(entries[3].data, b"absolute".to_vec());
    assert_eq!(entries[4].head.enclosed, Some(sep("engine/notes.txt")));
    assert_eq!(entries[4].data, vec![b'n'; 4096]);
}

#[test]
fn an_entry_that_leaves_the_destination_is_skipped_and_the_rest_extracted() {
    let steps = extract_zip(package()).unwrap();
    assert_eq!(steps.len(), 4);
    assert_eq!(steps[0], ExtractStep::CreateDirectory { path: sep("engine/bin") });
    match &steps[1] {
        ExtractStep::WriteFile { path, data, unix_mode } => {
            assert_eq!(path, &sep("engine/bin/yt-dlp"));
            assert_eq!(data, &b"#!/bin/sh\necho fetch\n".to_vec());
            assert_eq!(unix_mode.map(|m| m & 0o777), Some(0o755));
        }
        other => panic!("not a file: {:?}", other),
    }
    match &steps[2] {
        ExtractStep::WriteFile { path, data, .. } => {
            assert_eq!(path, &sep("etc/absolute"));
            assert_eq!(data, &b"absolute".to_vec());
        }
        other => panic!("not a file: {:?}", other),
    }
    match &steps[3] {
        ExtractStep::WriteFile { path, data, .. } => {
            assert_eq!(path, &sep("engine/notes.txt"));
            assert_eq!(data.len(), 4096);
        }
        other => panic!("not a file: {:?}", other),
    }
    for step in &steps {
        let path = match step {
            ExtractStep::CreateDirectory { path } => path,
            ExtractStep::WriteFile { path, .. } => path,
        };
        assert!(!path.contains(".."));
        assert!(!path.starts_with('/'));
    }
}

#[test]
fn a_package_without_entries_is_read_and_has_the_empty_plan() {
    let empty = ZipWriter::new(Cursor::new(Vec::new())).finish().unwrap().into_inner();
    assert_eq!(read_entries(empty.clone()), Ok(vec![]));
    assert_eq!(extract_zip(empty), Ok(vec![]));
}

#[test]
fn a_package_of_directories_and_unsafe_entries_alone_is_read() {
    let mut writer = ZipWriter::new(Cursor::new(Vec::new()));
    let stored = SimpleFileOptions::default().compression_method(CompressionMethod::Stored);
    writer.add_directory("only/", stored).unwrap();
    writer.start_file("../../escape", stored).unwrap();
    writer.write_all(b"x").unwrap();
    let bytes = writer.finish().unwrap().into_inner();
    assert_eq!(extract_zip(bytes), Ok(vec![ExtractStep::CreateDirectory { path: "only".to_string() }]));
}

#[test]
fn bytes_that_are_no_package_are_a_failure_of_the_archive() {
    for bytes in [Vec::new(), b"not a zip file at all".to_vec(), vec![0u8; 64]] {
        match extract_zip(bytes.clone()) {
            Err(error) => {
                assert_eq!(error.kind(), ErrorKind::Archive);
                assert!(matches!(error, AppError::Zip(_)));
                assert!(!error.message().is_empty());
            }
            Ok(steps) => panic!("a plan for no package: {:?}", steps),
        }
        assert!(read_entries(bytes).is_err());
    }
}

/// A package with one stored file whose bytes are `payload-payload`.
fn stored_package() -> Vec<u8> {
    let mut writer = ZipWriter::new(Cursor::new(Vec::new()));
    let stored = SimpleFileOptions::default().compression_method(CompressionMethod::Stored);
    writer.start_file("tool", stored).unwrap();
    writer.write_all(b"payload-payload").unwrap();
    writer.finish().unwrap().into_inner()
}

#[test]
fn a_stored_file_comes_out_byte_for_byte() {
    assert_eq!(
        extract_zip(stored_package()),
        Ok(vec![ExtractStep::WriteFile {
            path: "tool".to_string(),
            data: b"payload-payload".to_vec(),
            unix_mode: Some(0o100644),
        }])
    );
}

#[test]
fn bytes_that_fail_their_checksum_are_a_failure_of_the_archive() {
    let mut bytes = stored_package();
    let at = bytes.windows(7).position(|w| w == b"payload").unwrap();
    bytes[at] = b'P';
    match extract_zip(bytes) {
        Err(error) => {
            assert_eq!(error.kind(), ErrorKind::Archive);
            assert!(error.message().starts_with("i/o error: "));
        }
        Ok(steps) => panic!("a plan for a damaged file: {:?}", steps),
    }
}

#[test]
fn an_entry_that_cannot_be_opened_is_a_failure_of_the_archive() {
    let mut bytes = stored_package();
    // the package opens by its central directory; the header before the
    // bytes of the file is read only when the file is
    assert_eq!(&bytes[0..4], b"PK\x03\x04");
    bytes[0] = b'X';
    let entries = read_entries(bytes.clone());
    match entries {
        Err(error) => assert_eq!(error.kind(), ErrorKind::Archive),
        Ok(entries) => panic!("entries of a damaged package: {:?}", entries),
    }
    assert!(matches!(extract_zip(bytes), Err(AppError::Zip(_))));
}
