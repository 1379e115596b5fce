//! The tar container: entries, their headers, and the byte stream that a
//! builder writes for them.
//!
//! The stream is made by the `tar` crate. What that crate does is taken on
//! trust here, and said in the contracts of the items that call it: how a
//! header's bytes change is given a name, setter by setter, and so is the
//! head of the record that one entry becomes. Everything else in this module
//! is proved from those contracts.

use vstd::prelude::*;

verus! {

/// `tar::Header`, the 512-byte header of one entry, carried as an opaque value.
#[verifier::external_type_specification]
#[verifier::external_body]
pub struct ExHeader(tar::Header);

/// A `tar::Builder` that writes into a buffer in memory. Nothing is known
/// of it but what `written` names: the bytes in its buffer.
#[verifier::external_body]
pub struct StreamBuilder {
    inner: tar::Builder<Vec<u8>>,
}

/// `std::io::Error`, which the `tar` and `flate2` calls report, carried as an
/// opaque value.
#[verifier::external_type_specification]
#[verifier::external_body]
pub struct ExIoError(std::io::Error);

/// The 512 bytes that a header holds: what `tar::Header::as_bytes` shows.
pub uninterp spec fn header_block(header: tar::Header) -> Seq<u8>;

/// The header block `block` after `tar::Header::set_size` has stored `size` in it.
pub uninterp spec fn block_with_size(block: Seq<u8>, size: u64) -> Seq<u8>;

/// The header block `block` after `tar::Header::set_mode` has stored `mode` in it.
pub uninterp spec fn block_with_mode(block: Seq<u8>, mode: u32) -> Seq<u8>;

/// The header block `block` after `tar::Header::set_mtime` has stored `mtime` in it.
pub uninterp spec fn block_with_mtime(block: Seq<u8>, mtime: u64) -> Seq<u8>;

/// What `tar::Builder::append_data` writes in front of an entry's content,
/// for a header whose block is `block` before the path is stored in it: the
/// header with `path` and its checksum, after a long-name record where the
/// path needs one. `None` where the path is refused.
pub uninterp spec fn record_head(block: Seq<u8>, path: Seq<char>) -> Option<Seq<u8>>;

/// The bytes that a builder has written to its buffer so far: what
/// `tar::Builder::get_ref` shows.
pub uninterp spec fn written(builder: StreamBuilder) -> Seq<u8>;

/// One entry of an archive as a mathematical value: its relative path, its
/// permission bits, its modification time in seconds since the epoch, and its
/// content. Its size is the length of the content.
pub struct Entry {
    pub path: Seq<char>,
    pub mode: u32,
    pub mtime: u64,
    pub content: Seq<u8>,
}

/// One entry of an archive.
#[derive(Debug, PartialEq, Eq)]
pub struct ArchiveEntry {
    pub path: String,
    pub mode: u32,
    pub mtime: u64,
    pub content: Vec<u8>,
}

impl View for ArchiveEntry {
    type V = Entry;

    open spec fn view(&self) -> Entry {
        Entry { path: self.path@, mode: self.mode, mtime: self.mtime, content: self.content@ }
    }
}

/// The entries that a list of references stands for.
pub open spec fn views(entries: Seq<&ArchiveEntry>) -> Seq<Entry> {
    entries.map_values(|entry: &ArchiveEntry| entry@)
}

/// `n` zero bytes.
pub open spec fn zeros(n: nat) -> Seq<u8> {
    Seq::new(n, |i: int| 0u8)
}

/// The block of a fresh GNU header: zeros, but for a modification time of
/// zero in eleven octal digits, the magic `ustar ` and the version ` \0`.
pub open spec fn blank_gnu_block() -> Seq<u8> {
    Seq::new(
        512,
        |i: int|
            if 136 <= i < 147 {
                48u8
            } else if i == 257 {
                117u8
            } else if i == 258 {
                115u8
            } else if i == 259 {
                116u8
            } else if i == 260 {
                97u8
            } else if i == 261 {
                114u8
            } else if i == 262 || i == 263 {
                32u8
            } else {
                0u8
            },
    )
}

/// The header block of an entry before its path and checksum are stored.
pub open spec fn entry_header(entry: Entry) -> Seq<u8> {
    block_with_mtime(
        block_with_mode(block_with_size(blank_gnu_block(), entry.content.len() as u64), entry.mode),
        entry.mtime,
    )
}

/// How many zero bytes follow a content of `len` bytes, to fill its last
/// block of 512.
pub open spec fn padding(len: nat) -> nat {
    ((512 - len % 512) % 512) as nat
}

/// The bytes of one record: its head, the content, and the padding.
pub open spec fn record(head: Seq<u8>, content: Seq<u8>) -> Seq<u8> {
    head + content + zeros(padding(content.len()))
}

/// The head of an entry's record, or `None` where its path is refused.
pub open spec fn entry_head(entry: Entry) -> Option<Seq<u8>> {
    record_head(entry_header(entry), entry.path)
}

/// The bytes that stand for one entry in a stream, or `None` where its path
/// is refused.
pub open spec fn entry_record(entry: Entry) -> Option<Seq<u8>> {
    match entry_head(entry) {
        Some(head) => Some(record(head, entry.content)),
        None => None,
    }
}

/// Every entry has a record.
pub open spec fn encodable(entries: Seq<Entry>) -> bool {
    forall|i: int| 0 <= i < entries.len() ==> (#[trigger] entry_record(entries[i])) is Some
}

/// Entry `i` is refused, and is the first that is.
pub open spec fn first_refused(entries: Seq<Entry>, i: int) -> bool {
    &&& 0 <= i < entries.len()
    &&& entry_record(entries[i]) is None
    &&& encodable(entries.take(i))
}

/// The records of the entries, in order.
pub open spec fn records(entries: Seq<Entry>) -> Seq<u8>
    decreases entries.len(),
{
    if entries.len() == 0 {
        Seq::empty()
    } else {
        records(entries.drop_last()) + entry_record(entries.last())->0
    }
}

/// A whole tar stream: the records of the entries, then two blocks of zeros.
pub open spec fn tar_stream(entries: Seq<Entry>) -> Seq<u8> {
    records(entries) + zeros(1024)
}

/// Where the content of entry `i` starts in the stream of the entries: behind
/// the records of the entries before it and its own head.
pub open spec fn content_start(entries: Seq<Entry>, i: int) -> int {
    (records(entries.take(i)).len() + entry_head(entries[i])->0.len()) as int
}

/// `tar::Header::new_gnu` gives a header whose bytes are the blank GNU block.
pub assume_specification[ tar::Header::new_gnu ]() -> (header: tar::Header)
    ensures
        header_block(header) == blank_gnu_block(),
;

/// `tar::Header::set_size` writes the size into the header: the new bytes
/// depend on the old ones and on the size alone.
pub assume_specification[ tar::Header::set_size ](header: &mut tar::Header, size: u64)
    ensures
        header_block(*final(header)) == block_with_size(header_block(*old(header)), size),
;

/// `tar::Header::set_mode` writes the mode into the header: the new bytes
/// depend on the old ones and on the mode alone.
pub assume_specification[ tar::Header::set_mode ](header: &mut tar::Header, mode: u32)
    ensures
        header_block(*final(header)) == block_with_mode(header_block(*old(header)), mode),
;

/// `tar::Header::set_mtime` writes the modification time into the header: the
/// new bytes depend on the old ones and on the time alone.
pub assume_specification[ tar::Header::set_mtime ](header: &mut tar::Header, mtime: u64)
    ensures
        header_block(*final(header)) == block_with_mtime(header_block(*old(header)), mtime),
;

/// `tar::Builder::new` over an empty `Vec`: nothing is written yet.
#[verifier::external_body]
fn new_builder() -> (builder: StreamBuilder)
    ensures
        written(builder) == Seq::<u8>::empty(),
{
    StreamBuilder { inner: tar::Builder::new(Vec::new()) }
}

/// `tar::Builder::append_data` with this header, path and content. It stores
/// the path and the checksum in the header, and writes behind what the buffer
/// holds: the head that `record_head` names, then the content as it is, then
/// zeros up to the next multiple of 512. It fails only where the path is
/// refused, which the header's bytes and the path decide; writing into a
/// `Vec` and reading from a slice cannot fail.
#[verifier::external_body]
fn append_data(
    builder: &mut StreamBuilder,
    header: tar::Header,
    path: &str,
    data: &[u8],
) -> (r: Result<(), std::io::Error>)
    ensures
        r is Ok <==> record_head(header_block(header), path@) is Some,
        r is Ok ==> written(*final(builder)) == written(*old(builder)) + record(
            record_head(header_block(header), path@)->0,
            data@,
        ),
{
    let mut header = header;
    builder.inner.append_data(&mut header, path, data)
}

/// `tar::Builder::into_inner` on a builder that was not finished before:
/// it ends the stream with 1024 zero bytes and hands the buffer out. Writing
/// into a `Vec` cannot fail.
#[verifier::external_body]
fn finish_builder(builder: StreamBuilder) -> (r: Result<Vec<u8>, std::io::Error>)
    ensures
        r is Ok,
        r matches Ok(bytes) ==> bytes@ == written(builder) + zeros(1024),
{
    builder.inner.into_inner()
}

/// Appends one entry to the stream: a fresh GNU header with the entry's
/// size, mode and modification time, then its path and its content.
fn append_entry(builder: &mut StreamBuilder, entry: &ArchiveEntry) -> (r: Result<
    (),
    std::io::Error,
>)
    ensures
        r is Ok <==> entry_record(entry@) is Some,
        r is Ok ==> written(*final(builder)) == written(*old(builder)) + entry_record(entry@)->0,
{
    let mut header = tar::Header::new_gnu();
    header.set_size(entry.content.len() as u64);
    header.set_mode(entry.mode);
    header.set_mtime(entry.mtime);
    append_data(builder, header, entry.path.as_str(), entry.content.as_slice())
}

/// Writes the entries, in order, as one tar stream. Where an entry's path is
/// refused, nothing comes out but the index of the first such entry.
pub fn write_stream(entries: &Vec<&ArchiveEntry>) -> (r: Result<Vec<u8>, usize>)
    ensures
        encodable(views(entries@)) ==> r is Ok && r->Ok_0@ == tar_stream(views(entries@)),
        !encodable(views(entries@)) ==> r is Err && first_refused(
            views(entries@),
            r->Err_0 as int,
        ),
{
    let mut builder = new_builder();
    let mut i: usize = 0;
    while i < entries.len()
        invariant
            0 <= i <= entries@.len(),
            encodable(views(entries@).take(i as int)),
            written(builder) == records(views(entries@).take(i as int)),
        decreases entries@.len() - i,
    {
        let ghost done = views(entries@).take(i as int);
        let ghost next = views(entries@).take(i as int + 1);
        proof {
            assert(next.drop_last() =~= done);
            assert(next.last() == entries@[i as int]@);
        }
        match append_entry(&mut builder, entries[i]) {
            Ok(()) => {
                assert forall|j: int| 0 <= j < next.len() implies (#[trigger] entry_record(
                    next[j],
                )) is Some by {
                    if j < i {
                        assert(next[j] == done[j]);
                    }
                }
            },
            Err(_) => {
                assert(!encodable(views(entries@)));
                return Err(i);
            },
        }
        i = i + 1;
    }
    proof {
        assert(views(entries@).take(i as int) =~= views(entries@));
    }
    Ok(finish_builder(builder).unwrap())
}

/// The content of every entry stands in the stream unchanged, at the place
/// that `content_start` gives.
pub proof fn law_content_is_kept(entries: Seq<Entry>, i: int)
    requires
        encodable(entries),
        0 <= i < entries.len(),
    ensures
        0 <= content_start(entries, i),
        content_start(entries, i) + entries[i].content.len() <= tar_stream(entries).len(),
        tar_stream(entries).subrange(
            content_start(entries, i),
            content_start(entries, i) + entries[i].content.len(),
        ) == entries[i].content,
{
    let before = records(entries.take(i));
    let head = entry_head(entries[i])->0;
    let content = entries[i].content;
    let behind = zeros(padding(content.len())) + records(entries.skip(i + 1)) + zeros(1024);
    lemma_records_split(entries, i + 1);
    let upto = entries.take(i + 1);
    assert(upto.drop_last() =~= entries.take(i));
    assert(upto.last() == entries[i]);
    assert(entry_record(entries[i]) is Some);
    assert(records(upto) == before + record(head, content));
    assert(tar_stream(entries) =~= before + head + content + behind);
    assert(tar_stream(entries).subrange(
        content_start(entries, i),
        content_start(entries, i) + content.len(),
    ) =~= content);
}

/// The records of a list are those of its first `k` entries, then those of
/// the others.
proof fn lemma_records_split(entries: Seq<Entry>, k: int)
    requires
        0 <= k <= entries.len(),
    ensures
        records(entries) == records(entries.take(k)) + records(entries.skip(k)),
    decreases entries.len(),
{
    if k == entries.len() {
        assert(entries.take(k) =~= entries);
        assert(entries.skip(k) =~= Seq::<Entry>::empty());
        assert(records(entries) =~= records(entries) + Seq::<u8>::empty());
    } else {
        let shorter = entries.drop_last();
        lemma_records_split(shorter, k);
        assert(shorter.take(k) =~= entries.take(k));
        assert(shorter.skip(k) =~= entries.skip(k).drop_last());
        assert(entries.skip(k).last() == entries.last());
        assert(records(entries) =~= records(entries.take(k)) + records(entries.skip(k)));
    }
}

} // verus!
