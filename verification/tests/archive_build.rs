use aws_ec2::archive::{build_archive, EntryKind, RawEntry, SourceArchiver};
use aws_ec2::errors::ArchiveError;

fn seg(parts: &[&str]) -> Vec<String> {
    parts.iter().map(|p| p.to_string()).collect()
}

fn file(parts: &[&str], data: &[u8]) -> RawEntry {
    RawEntry { path: seg(parts), kind: EntryKind::File, data: data.to_vec() }
}

fn dir(parts: &[&str]) -> RawEntry {
    RawEntry { path: seg(parts), kind: EntryKind::Dir, data: Vec::new() }
}

fn special(parts: &[&str]) -> RawEntry {
    RawEntry { path: seg(parts), kind: EntryKind::Special, data: Vec::new() }
}

/// Decompresses the archive and lists its entries as (name, contents).
fn decode(bytes: &[u8]) -> Vec<(String, Vec<u8>)> {
    let mut decoder = flate2::read::GzDecoder::new(bytes);
    let mut tar_bytes = Vec::new();
    std::io::Read::read_to_end(&mut decoder, &mut tar_bytes).unwrap();
    let mut container = tar::Archive::new(&tar_bytes[..]);
    let mut listed = Vec::new();
    for entry in container.entries().unwrap() {
        let mut entry = entry.unwrap();
        let name = entry.path().unwrap().to_str().unwrap().to_string();
        let mut contents = Vec::new();
        std::io::Read::read_to_end(&mut entry, &mut contents).unwrap();
        listed.push((name, contents));
    }
    listed
}

#[test]
fn two_files_and_an_ignored_tree_archive_exactly_two_entries() {
    // A local directory with a.txt and b.txt plus a .git directory yields
    // an archive of exactly two entries, whatever .git holds.
    let raw = vec![
        file(&["a.txt"], b"alpha"),
        file(&["b.txt"], b"beta"),
        dir(&[".git"]),
        dir(&[".git", "objects"]),
        file(&[".git", "objects", "pack"], b"binary junk"),
        file(&[".git", "config"], b"[core]"),
    ];
    let bytes = build_archive(&raw).unwrap();
    let listed = decode(&bytes);
    assert_eq!(listed.len(), 2);
    assert_eq!(listed[0], (String::from("a.txt"), b"alpha".to_vec()));
    assert_eq!(listed[1], (String::from("b.txt"), b"beta".to_vec()));
}

#[test]
fn every_ignored_name_is_skipped_with_its_subtree() {
    let raw = vec![
        dir(&["src"]),
        file(&["src", "main.rs"], b"fn main() {}"),
        file(&[".gitignore"], b"/target"),
        dir(&["target"]),
        dir(&["target", "debug"]),
        file(&["target", "debug", "build.log"], b"..."),
        dir(&[".git"]),
        file(&[".git", "HEAD"], b"ref: refs/heads/main"),
    ];
    let bytes = build_archive(&raw).unwrap();
    let names: Vec<String> = decode(&bytes).into_iter().map(|(n, _)| n).collect();
    assert_eq!(names, vec![String::from("src"), String::from("src/main.rs")]);
}

#[test]
fn nested_directories_keep_their_joined_paths() {
    let raw = vec![
        dir(&["a"]),
        dir(&["a", "b"]),
        file(&["a", "b", "c.txt"], b"deep"),
    ];
    let bytes = build_archive(&raw).unwrap();
    let listed = decode(&bytes);
    assert_eq!(
        listed,
        vec![
            (String::from("a"), Vec::new()),
            (String::from("a/b"), Vec::new()),
            (String::from("a/b/c.txt"), b"deep".to_vec()),
        ]
    );
}

#[test]
fn a_special_entry_fails_explicitly() {
    let raw = vec![file(&["a.txt"], b"x"), special(&["link"])];
    assert_eq!(build_archive(&raw), Err(ArchiveError::UnsupportedEntry));
}

#[test]
fn an_ignored_special_entry_is_skipped_not_rejected() {
    let raw = vec![special(&[".git", "hook-socket"]), file(&["a.txt"], b"x")];
    let bytes = build_archive(&raw).unwrap();
    assert_eq!(decode(&bytes).len(), 1);
}

#[test]
fn compression_round_trips_and_is_not_the_identity() {
    let raw = vec![file(&["a.txt"], b"hello hello hello hello")];
    let bytes = build_archive(&raw).unwrap();
    // The produced buffer is a real gzip stream, not the tar bytes handed
    // through unchanged: decoding succeeds and changes the bytes.
    let mut decoder = flate2::read::GzDecoder::new(&bytes[..]);
    let mut tar_bytes = Vec::new();
    std::io::Read::read_to_end(&mut decoder, &mut tar_bytes).unwrap();
    assert_ne!(bytes, tar_bytes);
    // And the tar bytes really contain the appended file, not the raw
    // input handed through unchanged.
    assert_eq!(tar_bytes.len() % 512, 0);
    assert_eq!(decode(&bytes), vec![(String::from("a.txt"), b"hello hello hello hello".to_vec())]);
}

#[test]
fn archiver_builds_once_and_replays_the_same_bytes() {
    let raw = vec![file(&["a.txt"], b"alpha"), file(&["b.txt"], b"beta")];
    let mut archiver = SourceArchiver::new();
    assert_eq!(archiver.walk_count(), 0);
    let first = archiver.get_archive(&raw).unwrap();
    assert_eq!(archiver.walk_count(), 1);
    let second = archiver.get_archive(&raw).unwrap();
    assert_eq!(first, second);
    assert_eq!(archiver.walk_count(), 1);
    // Even a caller offering different entries receives the cached bytes:
    // the walk happened once for the whole run.
    let other = vec![file(&["c.txt"], b"gamma")];
    let third = archiver.get_archive(&other).unwrap();
    assert_eq!(first, third);
    assert_eq!(archiver.walk_count(), 1);
}

#[test]
fn a_failed_build_leaves_the_archiver_unbuilt() {
    let mut archiver = SourceArchiver::new();
    let bad = vec![special(&["fifo"])];
    assert_eq!(archiver.get_archive(&bad), Err(ArchiveError::UnsupportedEntry));
    assert_eq!(archiver.walk_count(), 1);
    let good = vec![file(&["a.txt"], b"alpha")];
    let bytes = archiver.get_archive(&good).unwrap();
    assert_eq!(archiver.walk_count(), 2);
    assert_eq!(decode(&bytes).len(), 1);
}
