use std::io::Read;

use tart::archive::{
    add_file_to_tar_gz, compress_files, decoded_stream, decompress_files, entry_to_add,
    select_existing, ArchiveError, Candidate, CompressOutcome, Extraction,
};
use tart::container::{write_stream, ArchiveEntry};

fn present(path: &str, mode: u32, mtime: u64, content: &[u8]) -> Candidate {
    Candidate::Present(ArchiveEntry {
        path: path.to_string(),
        mode,
        mtime,
        content: content.to_vec(),
    })
}

fn missing(path: &str) -> Candidate {
    Candidate::Missing(path.to_string())
}

fn compress(candidates: &Vec<Candidate>) -> CompressOutcome {
    compress_files(candidates, "out.tar.gz").unwrap()
}

fn stream_of(archive: &[u8]) -> Vec<u8> {
    decompress_files(archive, "in.tar.gz", "out_dir")
        .unwrap()
        .stream
}

fn decompress_error(archive: &[u8]) -> ArchiveError {
    decompress_files(archive, "in.tar.gz", "out_dir").unwrap_err()
}

/// Reads a tar stream back with the tar crate, going on past end markers.
fn read_entries(stream: &[u8]) -> Vec<(String, u32, u64, Vec<u8>)> {
    let mut archive = tar::Archive::new(stream);
    archive.set_ignore_zeros(true);
    let mut found = Vec::new();
    for entry in archive.entries().unwrap() {
        let mut entry = entry.unwrap();
        let path = entry.path().unwrap().to_string_lossy().into_owned();
        let mode = entry.header().mode().unwrap();
        let mtime = entry.header().mtime().unwrap();
        let mut content = Vec::new();
        entry.read_to_end(&mut content).unwrap();
        found.push((path, mode, mtime, content));
    }
    found
}

/// Decodes one gzip member with flate2, ignoring what follows it.
fn first_member(archive: &[u8]) -> Vec<u8> {
    let mut plain = Vec::new();
    flate2::read::GzDecoder::new(archive)
        .read_to_end(&mut plain)
        .unwrap();
    plain
}

#[test]
fn compress_archives_existing_and_skips_missing() {
    let candidates = vec![
        present("a.txt", 0o644, 1_700_000_000, b"alpha"),
        missing("missing.txt"),
        present("b.txt", 0o600, 1_700_000_001, b"beta beta"),
    ];
    let outcome = compress(&candidates);
    assert_eq!(outcome.skipped, vec!["missing.txt".to_string()]);
    assert_eq!(outcome.requested, 3);
    assert_eq!(outcome.written, 2);
    let entries = read_entries(&first_member(&outcome.archive));
    assert_eq!(
        entries,
        vec![
            ("a.txt".to_string(), 0o644, 1_700_000_000, b"alpha".to_vec()),
            ("b.txt".to_string(), 0o600, 1_700_000_001, b"beta beta".to_vec()),
        ]
    );
}

#[test]
fn compress_then_decompress_round_trips() {
    let big: Vec<u8> = (0..70_000u32).map(|i| (i % 251) as u8).collect();
    let candidates = vec![
        present("dir/one.bin", 0o755, 12, &big),
        present("two.txt", 0o444, 0, b""),
        present("three.txt", 0o640, 8_589_934_592, b"x"),
    ];
    let outcome = compress(&candidates);
    assert!(outcome.skipped.is_empty());
    assert_eq!(outcome.requested, 3);
    assert_eq!(outcome.written, 3);
    let stream = stream_of(&outcome.archive);
    assert_eq!(
        read_entries(&stream),
        vec![
            ("dir/one.bin".to_string(), 0o755, 12, big),
            ("two.txt".to_string(), 0o444, 0, Vec::new()),
            ("three.txt".to_string(), 0o640, 8_589_934_592, b"x".to_vec()),
        ]
    );
}

#[test]
fn compress_reports_the_requested_count_and_warns_once_for_each_missing_path() {
    let candidates = vec![
        present("a.txt", 0o644, 1, b"alpha"),
        missing("missing.txt"),
        present("b.txt", 0o644, 2, b"beta"),
    ];
    let outcome = compress_files(&candidates, "out.tar.gz").unwrap();
    assert_eq!(outcome.report, "✅ Compressed 3 files into out.tar.gz");
    assert_eq!(
        outcome.warnings,
        vec!["⚠️ Skipping missing file: missing.txt".to_string()]
    );
    let none = compress_files(&Vec::new(), "empty.tgz").unwrap();
    assert_eq!(none.report, "✅ Compressed 0 files into empty.tgz");
    assert!(none.warnings.is_empty());
}

#[test]
fn decompress_reports_both_paths() {
    let archive = compress(&vec![present("a.txt", 0o644, 1, b"alpha")]).archive;
    let extraction: Extraction = decompress_files(&archive, "in.tar.gz", "out_dir/").unwrap();
    assert_eq!(
        extraction.report,
        "✅ Extracted contents of in.tar.gz to out_dir/"
    );
    assert_eq!(extraction.stream.len(), 512 + 512 + 1024);
}

#[test]
fn compress_keeps_the_order_given() {
    let candidates = vec![
        present("z.txt", 0o644, 1, b"z"),
        missing("gone-1"),
        present("a.txt", 0o644, 2, b"a"),
        missing("gone-2"),
        present("m.txt", 0o644, 3, b"m"),
    ];
    let outcome = compress(&candidates);
    assert_eq!(
        outcome.skipped,
        vec!["gone-1".to_string(), "gone-2".to_string()]
    );
    assert_eq!(outcome.requested, 5);
    assert_eq!(outcome.written, 3);
    let stream = stream_of(&outcome.archive);
    let names: Vec<String> = read_entries(&stream).into_iter().map(|e| e.0).collect();
    assert_eq!(names, vec!["z.txt", "a.txt", "m.txt"]);
}

#[test]
fn compress_of_nothing_is_an_empty_stream() {
    let outcome = compress(&Vec::new());
    assert_eq!(outcome.requested, 0);
    assert_eq!(outcome.written, 0);
    assert!(outcome.skipped.is_empty());
    let stream = stream_of(&outcome.archive);
    assert_eq!(stream, vec![0u8; 1024]);
}

#[test]
fn compress_of_only_missing_paths_writes_no_entry() {
    let outcome = compress(&vec![missing("x"), missing("y")]);
    assert_eq!(outcome.requested, 2);
    assert_eq!(outcome.written, 0);
    assert_eq!(outcome.skipped, vec!["x".to_string(), "y".to_string()]);
    assert_eq!(stream_of(&outcome.archive), vec![0u8; 1024]);
}

#[test]
fn stream_has_the_layout_of_a_gnu_archive() {
    let outcome = compress(&vec![present("a.txt", 0o644, 0, b"hello")]);
    let stream = stream_of(&outcome.archive);
    assert_eq!(stream.len(), 512 + 512 + 1024);
    assert_eq!(&stream[0..6], b"a.txt\0");
    assert_eq!(&stream[100..108], b"0000644\0");
    assert_eq!(&stream[124..136], b"00000000005\0");
    assert_eq!(&stream[136..148], b"00000000000\0");
    assert_eq!(&stream[257..265], b"ustar  \0");
    assert_eq!(&stream[512..517], b"hello");
    assert!(stream[517..].iter().all(|b| *b == 0));
}

#[test]
fn header_is_blank_but_for_what_was_stored() {
    let outcome =
        compress(&vec![present("a.txt", 0o640, 1_700_000_000, b"hello")]);
    let stream = stream_of(&outcome.archive);
    let mut expected = [0u8; 512];
    expected[0..5].copy_from_slice(b"a.txt");
    expected[100..108].copy_from_slice(b"0000640\0");
    expected[124..136].copy_from_slice(b"00000000005\0");
    expected[136..148].copy_from_slice(b"14524770400\0");
    expected[148..156].copy_from_slice(b"        ");
    expected[257..265].copy_from_slice(b"ustar  \0");
    let sum: u32 = expected.iter().map(|b| *b as u32).sum();
    expected[148..156].copy_from_slice(format!("{:07o}\0", sum).as_bytes());
    assert_eq!(&stream[..512], &expected[..]);
}

#[test]
fn select_existing_parts_the_candidates() {
    let candidates = vec![
        missing("m1"),
        present("a", 0o644, 1, b"a"),
        present("b", 0o600, 2, b"bb"),
        missing("m2"),
    ];
    let (entries, skipped) = select_existing(&candidates);
    assert_eq!(skipped, vec!["m1".to_string(), "m2".to_string()]);
    assert_eq!(entries.len(), 2);
    assert_eq!(
        entries[0],
        &ArchiveEntry {
            path: "a".to_string(),
            mode: 0o644,
            mtime: 1,
            content: b"a".to_vec()
        }
    );
    assert_eq!(entries[1].path, "b");
    assert_eq!(entries[1].content, b"bb".to_vec());
    let no_candidates = Vec::new();
    let (none, nothing) = select_existing(&no_candidates);
    assert!(none.is_empty());
    assert!(nothing.is_empty());
}

#[test]
fn write_stream_writes_each_entry_in_whole_blocks() {
    let first = ArchiveEntry {
        path: "one".to_string(),
        mode: 0o644,
        mtime: 3,
        content: vec![7u8; 512],
    };
    let second = ArchiveEntry {
        path: "two".to_string(),
        mode: 0o600,
        mtime: 4,
        content: vec![9u8; 513],
    };
    let stream = write_stream(&vec![&first, &second]).unwrap();
    assert_eq!(stream.len(), (512 + 512) + (512 + 1024) + 1024);
    assert_eq!(&stream[512..1024], &[7u8; 512][..]);
    assert_eq!(&stream[1024..1027], b"two");
    assert_eq!(&stream[1536..2049], &[9u8; 513][..]);
    assert!(stream[2049..].iter().all(|b| *b == 0));
    assert_eq!(
        read_entries(&stream),
        vec![
            ("one".to_string(), 0o644, 3, vec![7u8; 512]),
            ("two".to_string(), 0o600, 4, vec![9u8; 513]),
        ]
    );
}

#[test]
fn write_stream_of_nothing_is_the_end_marker() {
    assert_eq!(write_stream(&Vec::new()), Ok(vec![0u8; 1024]));
}

#[test]
fn write_stream_names_the_first_refused_entry() {
    let good = ArchiveEntry {
        path: "good".to_string(),
        mode: 0o644,
        mtime: 0,
        content: Vec::new(),
    };
    let bad = ArchiveEntry {
        path: "../bad".to_string(),
        mode: 0o644,
        mtime: 0,
        content: Vec::new(),
    };
    let empty = ArchiveEntry {
        path: String::new(),
        mode: 0o644,
        mtime: 0,
        content: Vec::new(),
    };
    assert_eq!(write_stream(&vec![&good, &good, &bad, &empty]), Err(2));
    assert_eq!(write_stream(&vec![&empty]), Err(0));
}

#[test]
fn entry_to_add_fixes_mode_and_time() {
    assert_eq!(
        entry_to_add("new.txt", b"data".to_vec()),
        ArchiveEntry {
            path: "new.txt".to_string(),
            mode: 0o755,
            mtime: 0,
            content: b"data".to_vec()
        }
    );
}

#[test]
fn decoded_stream_keeps_the_stream_and_drops_the_cause() {
    assert_eq!(decoded_stream(Ok(vec![1, 2, 3])), Ok(vec![1, 2, 3]));
    assert_eq!(decoded_stream(Ok(Vec::new())), Ok(Vec::new()));
    let cause = std::io::Error::new(std::io::ErrorKind::InvalidInput, "bad header");
    assert_eq!(decoded_stream(Err(cause)), Err(ArchiveError::Corrupt));
}

#[test]
fn compressed_archive_is_one_gzip_member() {
    let outcome = compress(&vec![present("a.txt", 0o644, 0, b"hello")]);
    assert_eq!(&outcome.archive[0..3], &[0x1f, 0x8b, 8]);
    assert_eq!(
        first_member(&outcome.archive),
        stream_of(&outcome.archive)
    );
}

#[test]
fn compress_is_a_function_of_its_input() {
    let candidates = vec![present("a.txt", 0o644, 5, b"hello"), missing("b")];
    let first = compress(&candidates);
    let second = compress(&candidates);
    assert_eq!(first, second);
}

#[test]
fn compress_refuses_a_path_that_leaves_the_tree() {
    let candidates = vec![
        present("ok.txt", 0o644, 0, b"ok"),
        present("../evil.txt", 0o644, 0, b"no"),
    ];
    assert_eq!(
        compress_files(&candidates, "out.tar.gz"),
        Err(ArchiveError::PathRefused("../evil.txt".to_string()))
    );
}

#[test]
fn compress_refuses_an_absolute_path() {
    let candidates = vec![present("/etc/hosts", 0o644, 0, b"no")];
    assert_eq!(
        compress_files(&candidates, "out.tar.gz"),
        Err(ArchiveError::PathRefused("/etc/hosts".to_string()))
    );
}

#[test]
fn compress_names_the_first_refused_path() {
    let candidates = vec![
        missing("../not-looked-at"),
        present("fine", 0o644, 0, b""),
        present("a/../../b", 0o644, 0, b""),
        present("/second", 0o644, 0, b""),
    ];
    assert_eq!(
        compress_files(&candidates, "out.tar.gz"),
        Err(ArchiveError::PathRefused("a/../../b".to_string()))
    );
}

#[test]
fn compress_accepts_a_long_path() {
    let long = format!("{}/{}.txt", "d".repeat(90), "f".repeat(90));
    let outcome = compress(&vec![present(&long, 0o644, 7, b"deep")]);
    let stream = stream_of(&outcome.archive);
    assert_eq!(
        read_entries(&stream),
        vec![(long, 0o644, 7, b"deep".to_vec())]
    );
}

#[test]
fn decompress_rejects_what_is_no_archive() {
    assert_eq!(
        decompress_files(b"this is not a compressed archive", "in", "out"),
        Err(ArchiveError::Corrupt)
    );
}

#[test]
fn decompress_rejects_empty_input() {
    assert_eq!(decompress_error(b""), ArchiveError::Corrupt);
}

#[test]
fn decompress_rejects_a_truncated_archive() {
    let outcome = compress(&vec![present("a.txt", 0o644, 0, b"hello")]);
    let cut = &outcome.archive[..outcome.archive.len() - 5];
    assert_eq!(decompress_error(cut), ArchiveError::Corrupt);
}

#[test]
fn decompress_rejects_trailing_garbage() {
    let mut archive = compress(&vec![present("a.txt", 0o644, 0, b"hello")])
        .archive;
    archive.extend_from_slice(b"garbage");
    assert_eq!(decompress_error(&archive), ArchiveError::Corrupt);
}

#[test]
fn add_puts_a_segment_behind_the_archive() {
    let outcome = compress(&vec![
        present("a.txt", 0o644, 11, b"alpha"),
        present("b.txt", 0o600, 22, b"beta"),
    ]);
    let before = outcome.archive.clone();
    let mut archive = outcome.archive;
    assert_eq!(
        add_file_to_tar_gz(&mut archive, "archive.tar.gz", "c.txt", b"gamma".to_vec()),
        Ok("✅ Added c.txt to archive.tar.gz".to_string())
    );
    assert!(archive.len() > before.len());
    assert_eq!(&archive[..before.len()], &before[..]);
    let segment = &archive[before.len()..];
    assert_eq!(
        read_entries(&first_member(segment)),
        vec![("c.txt".to_string(), 0o755, 0, b"gamma".to_vec())]
    );
    let stream = stream_of(&archive);
    assert_eq!(
        read_entries(&stream),
        vec![
            ("a.txt".to_string(), 0o644, 11, b"alpha".to_vec()),
            ("b.txt".to_string(), 0o600, 22, b"beta".to_vec()),
            ("c.txt".to_string(), 0o755, 0, b"gamma".to_vec()),
        ]
    );
}

#[test]
fn add_segment_is_the_archive_of_that_one_entry() {
    let alone = compress(&vec![present("c.txt", 0o755, 0, b"gamma")])
        .archive;
    let mut archive = vec![1u8, 2, 3];
    add_file_to_tar_gz(&mut archive, "archive.tar.gz", "c.txt", b"gamma".to_vec()).unwrap();
    assert_eq!(&archive[..3], &[1u8, 2, 3]);
    assert_eq!(&archive[3..], &alone[..]);
}

#[test]
fn add_twice_gives_three_segments() {
    let mut archive = compress(&vec![present("a", 0o644, 1, b"1")])
        .archive;
    add_file_to_tar_gz(&mut archive, "archive.tar.gz", "b", b"22".to_vec()).unwrap();
    add_file_to_tar_gz(&mut archive, "archive.tar.gz", "c", b"333".to_vec()).unwrap();
    let stream = stream_of(&archive);
    assert_eq!(
        read_entries(&stream),
        vec![
            ("a".to_string(), 0o644, 1, b"1".to_vec()),
            ("b".to_string(), 0o755, 0, b"22".to_vec()),
            ("c".to_string(), 0o755, 0, b"333".to_vec()),
        ]
    );
}

#[test]
fn add_to_an_empty_file_gives_a_whole_archive() {
    let mut archive = Vec::new();
    add_file_to_tar_gz(&mut archive, "archive.tar.gz", "only.txt", b"one".to_vec()).unwrap();
    let stream = stream_of(&archive);
    assert_eq!(
        read_entries(&stream),
        vec![("only.txt".to_string(), 0o755, 0, b"one".to_vec())]
    );
}

#[test]
fn add_failure_leaves_the_archive_as_it_was() {
    let before = compress(&vec![present("a", 0o644, 1, b"1")])
        .archive;
    let mut archive = before.clone();
    assert_eq!(
        add_file_to_tar_gz(&mut archive, "archive.tar.gz", "../up", b"x".to_vec()),
        Err(ArchiveError::PathRefused("../up".to_string()))
    );
    assert_eq!(archive, before);
}

#[test]
fn archive_errors_have_their_lines_and_status() {
    let refused = ArchiveError::PathRefused("../up".to_string());
    assert_eq!(refused.message(), "❌ Cannot archive path: ../up");
    assert_eq!(refused.exit_status(), 1);
    assert_eq!(
        ArchiveError::Corrupt.message(),
        "❌ Not a gzip-compressed archive"
    );
    assert_eq!(ArchiveError::Corrupt.exit_status(), 1);
}
