//! The three operations on archives held in memory.
//!
//! An archive is a run of segments: each is one gzip member, the compression
//! of a tar stream of its own. `compress_files` makes an archive of one
//! segment. `add_file_to_tar_gz` leaves what is there as it is and puts one
//! more segment, with a single entry, behind it. `decompress_files` reads
//! every segment and hands out their tar streams, joined: whoever unpacks
//! that has to read on past the end marker of each stream but the last.

use crate::codec::{gz_decode, gz_decoded, gz_encode, gz_encoded, gz_members};
use crate::container::{
    encodable, entry_record, first_refused, tar_stream, views, write_stream, ArchiveEntry, Entry,
};
use crate::report::{
    add_report, add_report_text, compress_report, compress_report_text, decompress_report,
    decompress_report_text, skip_warnings, warnings_for,
};
use vstd::prelude::*;
use vstd::string::StringExecFns;

verus! {

/// Why an operation on an archive failed.
#[derive(Debug, PartialEq, Eq)]
pub enum ArchiveError {
    /// The container format refuses the path of this entry.
    PathRefused(String),
    /// The compressed data is malformed.
    Corrupt,
}

impl ArchiveError {
    /// The line that tells the user what is wrong.
    pub open spec fn text(self) -> Seq<char> {
        match self {
            ArchiveError::PathRefused(path) => "❌ Cannot archive path: "@ + path@,
            ArchiveError::Corrupt => "❌ Not a gzip-compressed archive"@,
        }
    }

    /// The line that tells the user what is wrong.
    pub fn message(&self) -> (line: String)
        ensures
            line@ == self.text(),
    {
        match self {
            ArchiveError::PathRefused(path) => {
                let mut line = "❌ Cannot archive path: ".to_owned();
                line.append(path.as_str());
                line
            },
            ArchiveError::Corrupt => "❌ Not a gzip-compressed archive".to_owned(),
        }
    }

    /// The status that the process ends with: never zero.
    pub open spec fn status(self) -> u8 {
        1
    }

    /// The status that the process ends with after this error.
    pub fn exit_status(&self) -> (code: u8)
        ensures
            code == self.status(),
            code != 0,
    {
        1
    }
}

/// The compressed archive that holds exactly these entries.
pub open spec fn archive_bytes(entries: Seq<Entry>) -> Seq<u8> {
    gz_encoded(tar_stream(entries))
}

/// A path that was asked to be archived, and what was found there.
#[derive(Debug, PartialEq, Eq)]
pub enum Candidate {
    /// A file exists at the path; this is what it holds.
    Present(ArchiveEntry),
    /// Nothing exists at this path.
    Missing(String),
}

/// The entries of the candidates that exist, in the order they were given.
pub open spec fn archived(candidates: Seq<Candidate>) -> Seq<Entry> {
    candidates.filter_map(
        |c: Candidate|
            match c {
                Candidate::Present(entry) => Some(entry@),
                Candidate::Missing(_) => None,
            },
    )
}

/// The paths of the candidates that do not exist, in the order they were given.
pub open spec fn skipped(candidates: Seq<Candidate>) -> Seq<Seq<char>> {
    candidates.filter_map(
        |c: Candidate|
            match c {
                Candidate::Present(_) => None,
                Candidate::Missing(path) => Some(path@),
            },
    )
}

/// The paths that a list of strings holds.
pub open spec fn paths(names: Seq<String>) -> Seq<Seq<char>> {
    names.map_values(|name: String| name@)
}

/// What compressing a list of candidates gave.
#[derive(Debug, PartialEq, Eq)]
pub struct CompressOutcome {
    /// The compressed archive.
    pub archive: Vec<u8>,
    /// The paths that were skipped because nothing exists there.
    pub skipped: Vec<String>,
    /// One warning for each skipped path.
    pub warnings: Vec<String>,
    /// How many paths were asked for.
    pub requested: usize,
    /// How many entries the archive holds.
    pub written: usize,
    /// The line that reports the compression.
    pub report: String,
}

/// What decompressing an archive gave.
#[derive(Debug, PartialEq, Eq)]
pub struct Extraction {
    /// The tar streams of the archive's segments, joined.
    pub stream: Vec<u8>,
    /// The line that reports the extraction, for when the stream is unpacked.
    pub report: String,
}

/// The entry that adding a file makes of it: mode `rwxr-xr-x` and a
/// modification time of zero, whatever the file had.
pub open spec fn added_entry(path: Seq<char>, content: Seq<u8>) -> Entry {
    Entry { path, mode: 0o755, mtime: 0, content }
}

/// An archive after one more segment, holding `added` alone, was put behind it.
pub open spec fn extended_archive(archive: Seq<u8>, added: Entry) -> Seq<u8> {
    archive + archive_bytes(seq![added])
}

/// The tar streams of the segments, one for each list of entries.
pub open spec fn streams(segments: Seq<Seq<Entry>>) -> Seq<Seq<u8>> {
    segments.map_values(|entries: Seq<Entry>| tar_stream(entries))
}

/// The archive made of these segments, each compressed by itself.
pub open spec fn segmented_archive(segments: Seq<Seq<Entry>>) -> Seq<u8> {
    gz_members(streams(segments))
}

/// The tar streams of the segments, joined.
pub open spec fn joined_streams(segments: Seq<Seq<Entry>>) -> Seq<u8> {
    streams(segments).flatten()
}

/// Parts the candidates into the entries to archive and the paths to skip,
/// each in the order given.
pub fn select_existing<'a>(input_files: &'a Vec<Candidate>) -> (r: (
    Vec<&'a ArchiveEntry>,
    Vec<String>,
))
    ensures
        views(r.0@) == archived(input_files@),
        paths(r.1@) == skipped(input_files@),
{
    let mut entries: Vec<&'a ArchiveEntry> = Vec::new();
    let mut skipped_paths: Vec<String> = Vec::new();
    let mut i: usize = 0;
    while i < input_files.len()
        invariant
            0 <= i <= input_files@.len(),
            views(entries@) == archived(input_files@.take(i as int)),
            paths(skipped_paths@) == skipped(input_files@.take(i as int)),
        decreases input_files@.len() - i,
    {
        proof {
            lemma_take_next(input_files@, i as int);
        }
        match &input_files[i] {
            Candidate::Present(entry) => {
                let ghost earlier = entries@;
                entries.push(entry);
                assert(views(entries@) =~= views(earlier) + seq![entry@]);
            },
            Candidate::Missing(path) => {
                let ghost earlier = skipped_paths@;
                skipped_paths.push(path.clone());
                assert(paths(skipped_paths@) =~= paths(earlier) + seq![path@]);
            },
        }
        i = i + 1;
    }
    proof {
        assert(input_files@.take(i as int) =~= input_files@);
    }
    (entries, skipped_paths)
}

/// Bundles the candidates that exist into a fresh compressed archive, in the
/// order given, and skips the others with a warning each. The report counts
/// the paths that were asked for, skipped ones too, and names `output`, where
/// the archive is to go. Fails where the container format refuses the path of
/// an entry, and names the first such path.
pub fn compress_files(input_files: &Vec<Candidate>, output: &str) -> (r: Result<
    CompressOutcome,
    ArchiveError,
>)
    ensures
        encodable(archived(input_files@)) ==> r is Ok && {
            let outcome = r->Ok_0;
            &&& outcome.archive@ == archive_bytes(archived(input_files@))
            &&& paths(outcome.skipped@) == skipped(input_files@)
            &&& warnings_for(outcome.warnings@, skipped(input_files@))
            &&& outcome.requested == input_files@.len()
            &&& outcome.written == archived(input_files@).len()
            &&& outcome.report@ == compress_report_text(input_files@.len(), output@)
        },
        !encodable(archived(input_files@)) ==> r is Err && r->Err_0 is PathRefused && exists|i: int|
            first_refused(archived(input_files@), i) && r->Err_0->PathRefused_0@ == archived(
                input_files@,
            )[i].path,
{
    let (entries, skipped_paths) = select_existing(input_files);
    match write_stream(&entries) {
        Ok(stream) => {
            let archive = gz_encode(stream.as_slice()).unwrap();
            let warnings = skip_warnings(&skipped_paths);
            let report = compress_report(input_files.len(), output);
            Ok(
                CompressOutcome {
                    archive,
                    skipped: skipped_paths,
                    warnings,
                    requested: input_files.len(),
                    written: entries.len(),
                    report,
                },
            )
        },
        Err(index) => Err(ArchiveError::PathRefused(entries[index].path.clone())),
    }
}

/// The entry that adding a file makes of it.
pub fn entry_to_add(file_path: &str, content: Vec<u8>) -> (entry: ArchiveEntry)
    ensures
        entry@ == added_entry(file_path@, content@),
{
    ArchiveEntry { path: file_path.to_owned(), mode: 0o755, mtime: 0, content }
}

/// Puts one more file behind an existing archive, as a compressed segment of
/// its own with that single entry. What the archive held before stays as it
/// was; on failure nothing is added. The report names the file and
/// `tar_gz_path`, where the archive lies.
pub fn add_file_to_tar_gz(
    archive: &mut Vec<u8>,
    tar_gz_path: &str,
    file_path: &str,
    content: Vec<u8>,
) -> (r: Result<String, ArchiveError>)
    ensures
        match entry_record(added_entry(file_path@, content@)) {
            Some(_) => {
                &&& r is Ok
                &&& r->Ok_0@ == add_report_text(file_path@, tar_gz_path@)
                &&& final(archive)@ == extended_archive(
                    old(archive)@,
                    added_entry(file_path@, content@),
                )
            },
            None => {
                &&& r is Err
                &&& r->Err_0 is PathRefused
                &&& r->Err_0->PathRefused_0@ == file_path@
                &&& final(archive)@ == old(archive)@
            },
        },
{
    let entry = entry_to_add(file_path, content);
    let mut entries: Vec<&ArchiveEntry> = Vec::new();
    entries.push(&entry);
    proof {
        assert(views(entries@) =~= seq![entry@]);
        assert(encodable(seq![entry@]) <==> entry_record(entry@) is Some) by {
            if entry_record(entry@) is Some {
                assert(encodable(seq![entry@]));
            } else {
                assert(seq![entry@][0] == entry@);
            }
        }
    }
    match write_stream(&entries) {
        Ok(stream) => {
            let mut segment = gz_encode(stream.as_slice()).unwrap();
            archive.append(&mut segment);
            Ok(add_report(file_path, tar_gz_path))
        },
        Err(_) => Err(ArchiveError::PathRefused(entry.path)),
    }
}

/// What a run of the decoder comes to: its stream, or the news that the
/// data is malformed.
pub fn decoded_stream(decoded: Result<Vec<u8>, std::io::Error>) -> (r: Result<
    Vec<u8>,
    ArchiveError,
>)
    ensures
        match decoded {
            Ok(stream) => r == Ok::<Vec<u8>, ArchiveError>(stream),
            Err(_) => r == Err::<Vec<u8>, ArchiveError>(ArchiveError::Corrupt),
        },
{
    match decoded {
        Ok(stream) => Ok(stream),
        Err(_) => Err(ArchiveError::Corrupt),
    }
}

/// Decompresses an archive into the tar streams of its segments, joined.
/// Fails where the data is no run of gzip members. Of an archive that
/// `compress_files` made, what comes out is the very stream that was
/// compressed, and of one that a file was added to, that stream and then the
/// stream of the added entry. The report names `input`, where the archive
/// lies, and `output_dir`, where the stream is to be unpacked.
pub fn decompress_files(archive: &[u8], input: &str, output_dir: &str) -> (r: Result<
    Extraction,
    ArchiveError,
>)
    ensures
        match gz_decoded(archive@) {
            Some(stream) => {
                &&& r is Ok
                &&& r->Ok_0.stream@ == stream
                &&& r->Ok_0.report@ == decompress_report_text(input@, output_dir@)
            },
            None => r == Err::<Extraction, ArchiveError>(ArchiveError::Corrupt),
        },
        forall|segments: Seq<Seq<Entry>>|
            segments.len() > 0 && archive@ == #[trigger] segmented_archive(segments) ==> r is Ok
                && r->Ok_0.stream@ == joined_streams(segments),
        forall|entries: Seq<Entry>|
            archive@ == #[trigger] archive_bytes(entries) ==> r is Ok && r->Ok_0.stream@
                == tar_stream(entries),
        forall|entries: Seq<Entry>, added: Entry|
            archive@ == #[trigger] extended_archive(archive_bytes(entries), added) ==> r is Ok
                && r->Ok_0.stream@ == tar_stream(entries) + tar_stream(seq![added]),
{
    let decoded = gz_decode(archive);
    proof {
        assert forall|segments: Seq<Seq<Entry>>|
            segments.len() > 0 && archive@ == #[trigger] segmented_archive(
                segments,
            ) implies decoded is Ok && decoded->Ok_0@ == joined_streams(segments) by {
            assert(archive@ == gz_members(streams(segments)));
        }
        assert forall|entries: Seq<Entry>|
            archive@ == #[trigger] archive_bytes(entries) implies decoded is Ok
            && decoded->Ok_0@ == tar_stream(entries) by {
            law_fresh_archive(entries);
            assert(archive@ == segmented_archive(seq![entries]));
        }
        assert forall|entries: Seq<Entry>, added: Entry|
            archive@ == #[trigger] extended_archive(
                archive_bytes(entries),
                added,
            ) implies decoded is Ok && decoded->Ok_0@ == tar_stream(entries) + tar_stream(
            seq![added],
        ) by {
            law_fresh_archive(entries);
            law_added_segment(seq![entries], added);
            assert(archive@ == segmented_archive(seq![entries].push(seq![added])));
        }
    }
    match decoded_stream(decoded) {
        Ok(stream) => Ok(Extraction { stream, report: decompress_report(input, output_dir) }),
        Err(error) => Err(error),
    }
}

/// A fresh archive is an archive of one segment, and the stream of that
/// segment is all that is in it.
pub proof fn law_fresh_archive(entries: Seq<Entry>)
    ensures
        segmented_archive(seq![entries]) == archive_bytes(entries),
        joined_streams(seq![entries]) == tar_stream(entries),
{
    let parts = streams(seq![entries]);
    assert(parts =~= seq![tar_stream(entries)]);
    let members = parts.map_values(|part: Seq<u8>| gz_encoded(part));
    assert(members =~= seq![gz_encoded(tar_stream(entries))]);
    members.lemma_flatten_one_element();
    parts.lemma_flatten_one_element();
}

/// Adding a file to an archive of some segments gives the archive of those
/// segments and one more, which holds the added entry alone; its stream comes
/// last among the joined streams.
pub proof fn law_added_segment(segments: Seq<Seq<Entry>>, added: Entry)
    ensures
        segmented_archive(segments.push(seq![added])) == extended_archive(
            segmented_archive(segments),
            added,
        ),
        joined_streams(segments.push(seq![added])) == joined_streams(segments) + tar_stream(
            seq![added],
        ),
{
    let encode = |part: Seq<u8>| gz_encoded(part);
    let parts = streams(segments);
    let last = tar_stream(seq![added]);
    assert(streams(segments.push(seq![added])) =~= parts.push(last));
    assert(parts.push(last).map_values(encode) =~= parts.map_values(encode).push(gz_encoded(last)));
    lemma_flatten_push(parts, last);
    lemma_flatten_push(parts.map_values(encode), gz_encoded(last));
}

/// Each candidate is counted once: the archived entries are those of the
/// candidates that exist, the skipped paths those of the candidates that do
/// not, both in the order given, and together they are as many as the
/// candidates.
pub proof fn law_archived_or_skipped(candidates: Seq<Candidate>)
    ensures
        archived(candidates) == candidates.filter(|c: Candidate| c is Present).map_values(
            |c: Candidate| c->Present_0@,
        ),
        skipped(candidates) == candidates.filter(|c: Candidate| c is Missing).map_values(
            |c: Candidate| c->Missing_0@,
        ),
        archived(candidates).len() + skipped(candidates).len() == candidates.len(),
    decreases candidates.len(),
{
    reveal(Seq::filter);
    let present = |c: Candidate| c is Present;
    let missing = |c: Candidate| c is Missing;
    let entry_of = |c: Candidate| c->Present_0@;
    let path_of = |c: Candidate| c->Missing_0@;
    if candidates.len() == 0 {
        assert(archived(candidates) =~= candidates.filter(present).map_values(entry_of));
        assert(skipped(candidates) =~= candidates.filter(missing).map_values(path_of));
    } else {
        let rest = candidates.drop_last();
        law_archived_or_skipped(rest);
        match candidates.last() {
            Candidate::Present(entry) => {
                assert(candidates.filter(present) == rest.filter(present).push(candidates.last()));
                assert(candidates.filter(missing) == rest.filter(missing));
                assert(archived(candidates) =~= candidates.filter(present).map_values(entry_of));
            },
            Candidate::Missing(path) => {
                assert(candidates.filter(present) == rest.filter(present));
                assert(candidates.filter(missing) == rest.filter(missing).push(candidates.last()));
                assert(skipped(candidates) =~= candidates.filter(missing).map_values(path_of));
            },
        }
    }
}

/// Taking one more candidate adds its entry, or its path to the skipped ones.
proof fn lemma_take_next(candidates: Seq<Candidate>, i: int)
    requires
        0 <= i < candidates.len(),
    ensures
        match candidates[i] {
            Candidate::Present(entry) => {
                &&& archived(candidates.take(i + 1)) == archived(candidates.take(i)) + seq![entry@]
                &&& skipped(candidates.take(i + 1)) == skipped(candidates.take(i))
            },
            Candidate::Missing(path) => {
                &&& archived(candidates.take(i + 1)) == archived(candidates.take(i))
                &&& skipped(candidates.take(i + 1)) == skipped(candidates.take(i)) + seq![path@]
            },
        },
{
    let next = candidates.take(i + 1);
    assert(next.drop_last() =~= candidates.take(i));
    assert(next.last() == candidates[i]);
}

/// Joining a list of parts with one more part behind it.
proof fn lemma_flatten_push(parts: Seq<Seq<u8>>, last: Seq<u8>)
    ensures
        parts.push(last).flatten() == parts.flatten() + last,
{
    let longer = parts.push(last);
    longer.lemma_flatten_and_flatten_alt_are_equivalent();
    parts.lemma_flatten_and_flatten_alt_are_equivalent();
    assert(longer.drop_last() =~= parts);
    assert(longer.last() == last);
}

} // verus!
