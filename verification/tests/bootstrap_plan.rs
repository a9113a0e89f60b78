use jargo::archive::{read_archive, ArchiveEntry, ArchiveError};
use jargo::bootstrap::{
    contains_launcher, ensure_gradle_wrapper, extraction_plan, is_directory_entry, is_script_entry,
    normalize_line_endings, plan_entry, FsAction, Platform, LAUNCHER_MODE,
};
use std::io::{Cursor, Write};
use zip::write::SimpleFileOptions;

fn distribution() -> Vec<u8> {
    let mut writer = zip::ZipWriter::new(Cursor::new(Vec::new()));
    let options = SimpleFileOptions::default();
    writer.add_directory("gradle/wrapper/", options).unwrap();
    writer.start_file("gradlew", options).unwrap();
    writer.write_all(b"#!/bin/sh\r\nexec java\r\n").unwrap();
    writer.start_file("gradlew.bat", options).unwrap();
    writer.write_all(b"@echo off\r\n").unwrap();
    writer.start_file("gradle/wrapper/gradle-wrapper.jar", options).unwrap();
    writer.write_all(b"PK\r\n\x00\xff").unwrap();
    writer.finish().unwrap().into_inner()
}

fn entry(name: &str, data: &[u8]) -> ArchiveEntry {
    ArchiveEntry { name: name.to_string(), data: data.to_vec() }
}

#[test]
fn reads_every_entry_in_order() {
    let entries = read_archive(distribution()).unwrap();
    assert_eq!(
        entries,
        vec![
            entry("gradle/wrapper/", b""),
            entry("gradlew", b"#!/bin/sh\r\nexec java\r\n"),
            entry("gradlew.bat", b"@echo off\r\n"),
            entry("gradle/wrapper/gradle-wrapper.jar", b"PK\r\n\x00\xff"),
        ]
    );
}

#[test]
fn an_empty_archive_has_no_entries() {
    let bytes = zip::ZipWriter::new(Cursor::new(Vec::new())).finish().unwrap().into_inner();
    assert_eq!(read_archive(bytes), Ok(vec![]));
}

#[test]
fn bytes_that_are_no_archive_are_rejected() {
    assert_eq!(read_archive(b"not a zip archive".to_vec()), Err(ArchiveError::Invalid));
    assert_eq!(read_archive(Vec::new()), Err(ArchiveError::Invalid));
}

#[test]
fn a_damaged_entry_is_reported_by_index() {
    let mut writer = zip::ZipWriter::new(Cursor::new(Vec::new()));
    let stored = SimpleFileOptions::default().compression_method(zip::CompressionMethod::Stored);
    writer.start_file("first.txt", stored).unwrap();
    writer.write_all(b"untouched").unwrap();
    writer.start_file("second.txt", stored).unwrap();
    writer.write_all(b"#!/bin/sh").unwrap();
    let mut bytes = writer.finish().unwrap().into_inner();
    let at = bytes.windows(9).position(|w| w == b"#!/bin/sh").unwrap();
    bytes[at] = b'X';
    assert_eq!(read_archive(bytes), Err(ArchiveError::Unreadable { index: 1 }));
}

#[test]
fn first_bootstrap_extracts_every_entry_and_marks_the_launcher() {
    let plan = ensure_gradle_wrapper(false, distribution(), Platform::Posix).unwrap();
    assert_eq!(
        plan,
        vec![
            FsAction::CreateDir { path: "gradle/wrapper/".into() },
            FsAction::WriteFile { path: "gradlew".into(), data: b"#!/bin/sh\nexec java\n".to_vec() },
            FsAction::WriteFile { path: "gradlew.bat".into(), data: b"@echo off\n".to_vec() },
            FsAction::WriteFile {
                path: "gradle/wrapper/gradle-wrapper.jar".into(),
                data: b"PK\r\n\x00\xff".to_vec()
            },
            FsAction::SetMode { path: "gradlew".into(), mode: 0o755 },
        ]
    );
}

#[test]
fn windows_writes_entries_as_stored_and_sets_no_mode() {
    let plan = ensure_gradle_wrapper(false, distribution(), Platform::Windows).unwrap();
    assert_eq!(
        plan,
        vec![
            FsAction::CreateDir { path: "gradle/wrapper/".into() },
            FsAction::WriteFile {
                path: "gradlew".into(),
                data: b"#!/bin/sh\r\nexec java\r\n".to_vec()
            },
            FsAction::WriteFile { path: "gradlew.bat".into(), data: b"@echo off\r\n".to_vec() },
            FsAction::WriteFile {
                path: "gradle/wrapper/gradle-wrapper.jar".into(),
                data: b"PK\r\n\x00\xff".to_vec()
            },
        ]
    );
}

#[test]
fn an_existing_cache_needs_no_step() {
    assert_eq!(ensure_gradle_wrapper(true, distribution(), Platform::Posix), Ok(vec![]));
    assert_eq!(ensure_gradle_wrapper(true, distribution(), Platform::Windows), Ok(vec![]));
}

#[test]
fn an_existing_cache_is_not_even_read() {
    assert_eq!(ensure_gradle_wrapper(true, b"garbage".to_vec(), Platform::Posix), Ok(vec![]));
}

#[test]
fn bootstrap_twice_writes_nothing_the_second_time() {
    let first = ensure_gradle_wrapper(false, distribution(), Platform::Posix).unwrap();
    assert!(!first.is_empty());
    let second = ensure_gradle_wrapper(true, distribution(), Platform::Posix).unwrap();
    assert!(second.is_empty());
}

#[test]
fn a_bad_archive_fails_the_bootstrap() {
    assert_eq!(
        ensure_gradle_wrapper(false, b"garbage".to_vec(), Platform::Posix),
        Err(ArchiveError::Invalid)
    );
}

#[test]
fn no_launcher_no_mode_step() {
    let entries = vec![entry("lib/", b""), entry("lib/a.jar", b"x")];
    assert!(!contains_launcher(&entries));
    assert_eq!(
        extraction_plan(&entries, Platform::Posix),
        vec![
            FsAction::CreateDir { path: "lib/".into() },
            FsAction::WriteFile { path: "lib/a.jar".into(), data: b"x".to_vec() },
        ]
    );
    assert_eq!(extraction_plan(&Vec::new(), Platform::Posix), vec![]);
}

#[test]
fn the_launcher_is_found_by_its_exact_name() {
    assert!(contains_launcher(&vec![entry("a", b""), entry("gradlew", b"")]));
    assert!(!contains_launcher(&vec![entry("gradlew.bat", b""), entry("bin/gradlew", b"")]));
    assert!(!contains_launcher(&vec![entry("gradlew/", b"")]));
    assert_eq!(LAUNCHER_MODE, 0o755);
}

#[test]
fn directory_entries_end_in_a_slash() {
    assert!(is_directory_entry("gradle/"));
    assert!(is_directory_entry("/"));
    assert!(!is_directory_entry("gradle"));
    assert!(!is_directory_entry(""));
    assert!(!is_directory_entry("a/b"));
}

#[test]
fn script_entries() {
    assert!(is_script_entry("gradlew"));
    assert!(is_script_entry("gradlew.bat"));
    assert!(is_script_entry("bin/run.sh"));
    assert!(is_script_entry(".sh"));
    assert!(!is_script_entry("bin/gradlew"));
    assert!(!is_script_entry("gradle-wrapper.jar"));
    assert!(!is_script_entry("sh"));
    assert!(!is_script_entry(""));
}

#[test]
fn line_endings_are_normalised() {
    assert_eq!(normalize_line_endings(&b"a\r\nb\r\n".to_vec()), b"a\nb\n".to_vec());
    assert_eq!(normalize_line_endings(&b"a\rb\n\r".to_vec()), b"a\rb\n\r".to_vec());
    assert_eq!(normalize_line_endings(&b"\r\r\n\n".to_vec()), b"\r\n\n".to_vec());
    assert_eq!(normalize_line_endings(&b"\r\n".to_vec()), b"\n".to_vec());
    assert_eq!(normalize_line_endings(&b"\r".to_vec()), b"\r".to_vec());
    assert_eq!(normalize_line_endings(&Vec::new()), Vec::<u8>::new());
}

#[test]
fn scripts_are_normalised_on_posix_only() {
    let script = entry("run.sh", b"a\r\nb");
    assert_eq!(
        plan_entry(&script, Platform::Posix),
        FsAction::WriteFile { path: "run.sh".into(), data: b"a\nb".to_vec() }
    );
    assert_eq!(
        plan_entry(&script, Platform::Windows),
        FsAction::WriteFile { path: "run.sh".into(), data: b"a\r\nb".to_vec() }
    );
    let other = entry("notes.txt", b"a\r\nb");
    assert_eq!(
        plan_entry(&other, Platform::Posix),
        FsAction::WriteFile { path: "notes.txt".into(), data: b"a\r\nb".to_vec() }
    );
    assert_eq!(
        plan_entry(&entry("scripts.sh/", b""), Platform::Posix),
        FsAction::CreateDir { path: "scripts.sh/".into() }
    );
}
