//! The container format behind the pipeline: the `tar` crate's builder
//! and archive reader, reached only through the trusted items in this
//! module. An entry is modelled by its stored name, its byte content,
//! and its numeric header fields: mode bits, modification time, owner id
//! and group id. A numeric header field that does not parse as a number
//! counts as 0 in the model.
//!
//! The builder here always writes into an in-memory buffer and the reader
//! always reads from one; the caller decides where those bytes come from
//! and go to.

use crate::error::TarballError;
use crate::names::tar_name_ok;
use vstd::prelude::*;

verus! {

/// A container builder writing into an in-memory buffer. The field is
/// opaque; everything known about a sink is phrased over [`tar_building`].
#[verifier::external_body]
pub struct TarSink {
    inner: tar::Builder<Vec<u8>>,
}

/// An archive opened over a byte slice, not yet iterated.
#[verifier::external_body]
pub struct ArchiveHandle<'a> {
    inner: tar::Archive<&'a [u8]>,
}

/// The entry iterator of an opened archive.
#[verifier::external_body]
pub struct EntriesHandle<'a, 'd> {
    inner: tar::Entries<'a, &'d [u8]>,
}

/// One entry handed out by the iterator, its content not yet read.
#[verifier::external_body]
pub struct EntryHandle<'a, 'd> {
    inner: tar::Entry<'a, &'d [u8]>,
}

/// The entries appended to a builder so far.
pub uninterp spec fn tar_building(b: TarSink) -> Seq<(Seq<char>, Seq<u8>, u32, u64, u64, u64)>;

/// The container byte stream for the given entries; the builder writes
/// fixed header fields, so it depends on the entries alone.
pub uninterp spec fn tar_bytes(entries: Seq<(Seq<char>, Seq<u8>, u32, u64, u64, u64)>) -> Seq<u8>;

/// What the container parser makes of a byte stream, with or without
/// tolerance for zeroed blocks: the entries in order when the stream is a
/// well-formed container whose names decode as text, nothing otherwise.
/// A numeric header field that does not parse counts as 0.
pub uninterp spec fn tar_parse(data: Seq<u8>, ignore_zeros: bool) -> Option<
    Seq<(Seq<char>, Seq<u8>, u32, u64, u64, u64)>,
>;

/// The byte stream an archive was opened over.
pub uninterp spec fn archive_data(a: ArchiveHandle) -> Seq<u8>;

/// Whether the archive was opened with tolerance for zeroed blocks.
pub uninterp spec fn archive_zeros(a: ArchiveHandle) -> bool;

/// Whether the archive has not been read from yet; its entry iterator can
/// be taken only in that state.
pub uninterp spec fn archive_fresh(a: ArchiveHandle) -> bool;

/// The entries the iterator has not yet handed out, when the remaining
/// stream is well-formed; nothing otherwise.
pub uninterp spec fn entries_left(it: EntriesHandle) -> Option<Seq<(Seq<char>, Seq<u8>, u32, u64, u64, u64)>>;

/// An upper bound on the steps the iterator can still take; it shrinks
/// with every entry handed out, because each entry consumes part of a
/// finite stream.
pub uninterp spec fn entries_budget(it: EntriesHandle) -> nat;

/// The name, content, mode, modification time, owner id and group id
/// of an entry; a numeric field that does not parse counts as 0.
pub uninterp spec fn entry_item(e: EntryHandle) -> (Seq<char>, Seq<u8>, u32, u64, u64, u64);

/// Whether the entry came out of a well-formed remaining stream; name,
/// content and mode are pinned down only for such entries.
pub uninterp spec fn entry_wf(e: EntryHandle) -> bool;

/// The total content length of a sequence of entries.
pub open spec fn entries_data_len(es: Seq<(Seq<char>, Seq<u8>, u32, u64, u64, u64)>) -> int
    decreases es.len(),
{
    if es.len() == 0 {
        0
    } else {
        es[0].1.len() + entries_data_len(es.skip(1))
    }
}

/// The stored names of a sequence of entries, in order.
pub open spec fn entry_names(es: Seq<(Seq<char>, Seq<u8>, u32, u64, u64, u64)>) -> Seq<Seq<char>> {
    es.map_values(|t: (Seq<char>, Seq<u8>, u32, u64, u64, u64)| t.0)
}

/// Relies on `tar::Builder::new`: a fresh builder over an empty buffer
/// holds no entries.
#[verifier::external_body]
pub(crate) fn tar_sink_new() -> (b: TarSink)
    ensures
        tar_building(b) == Seq::<(Seq<char>, Seq<u8>, u32, u64, u64, u64)>::empty(),
{
    TarSink { inner: tar::Builder::new(Vec::new()) }
}

/// Relies on `tar::Builder::append_data` with a fresh GNU header carrying
/// the given mode, the given size, modification time 0 and ownership
/// 0:0: writing into an in-memory buffer, it cannot fail for a name
/// accepted by [`tar_name_ok`], and it stores such a name unchanged.
#[verifier::external_body]
pub(crate) fn tar_append(b: &mut TarSink, name: &str, mode: u32, data: &Vec<u8>) -> (r: Result<
    (),
    TarballError,
>)
    requires
        tar_name_ok(name@),
        mode <= 0o7777,
    ensures
        r is Ok,
        r is Ok ==> tar_building(*final(b)) == tar_building(*old(b)).push(
            (name@, data@, mode, 0u64, 0u64, 0u64),
        ),
{
    let mut header = tar::Header::new_gnu();
    header.set_mode(mode);
    header.set_uid(0);
    header.set_gid(0);
    header.set_size(data.len() as u64);
    match b.inner.append_data(&mut header, name, data.as_slice()) {
        Ok(()) => Ok(()),
        Err(_) => Err(TarballError::ArchiveWriteFailure),
    }
}

/// Relies on `tar::Builder::into_inner`: it writes the end-of-archive
/// trailer into the in-memory buffer, which cannot fail, and returns the
/// finished container. The container holds every appended content byte
/// plus at least the two zeroed trailer blocks, and parsing it back, with
/// or without zero-block tolerance, yields exactly the appended entries.
#[verifier::external_body]
pub(crate) fn tar_finish(b: TarSink) -> (r: Result<Vec<u8>, TarballError>)
    ensures
        r is Ok,
        r is Ok ==> r->Ok_0@ == tar_bytes(tar_building(b)) && r->Ok_0@.len() >= entries_data_len(
            tar_building(b),
        ) + 1024 && tar_parse(tar_bytes(tar_building(b)), false) == Some(tar_building(b))
            && tar_parse(tar_bytes(tar_building(b)), true) == Some(tar_building(b)),
{
    match b.inner.into_inner() {
        Ok(v) => Ok(v),
        Err(_) => Err(TarballError::ArchiveWriteFailure),
    }
}

/// Relies on `tar::Archive::new` and `tar::Archive::set_ignore_zeros`: a
/// fresh archive over the given bytes, configured for zero-block
/// tolerance, not yet read from.
#[verifier::external_body]
pub(crate) fn archive_open<'d>(data: &'d [u8], ignore_zeros: bool) -> (a: ArchiveHandle<'d>)
    ensures
        archive_data(a) == data@,
        archive_zeros(a) == ignore_zeros,
        archive_fresh(a),
{
    let mut inner = tar::Archive::new(data);
    inner.set_ignore_zeros(ignore_zeros);
    ArchiveHandle { inner }
}

/// Relies on `tar::Archive::entries`: it succeeds on an archive that has
/// not been read from, and hands out the entries of the stream the
/// archive was opened over.
#[verifier::external_body]
pub(crate) fn archive_entries<'a, 'd>(a: &'a mut ArchiveHandle<'d>) -> (r: Result<
    EntriesHandle<'a, 'd>,
    TarballError,
>)
    ensures
        archive_fresh(*old(a)) ==> r is Ok,
        r is Ok ==> entries_left(r->Ok_0) == tar_parse(
            archive_data(*old(a)),
            archive_zeros(*old(a)),
        ),
        r matches Err(e) ==> e == TarballError::ArchiveReadFailure,
{
    match a.inner.entries() {
        Ok(it) => Ok(EntriesHandle { inner: it }),
        Err(_) => Err(TarballError::ArchiveReadFailure),
    }
}

/// Relies on `tar::Entries::next`: on a well-formed remaining stream it
/// hands out the next entry, or the end of the iteration once none is
/// left; every step consumes part of a finite stream.
#[verifier::external_body]
pub(crate) fn entries_next<'a, 'd>(it: &mut EntriesHandle<'a, 'd>) -> (r: Option<
    Result<EntryHandle<'a, 'd>, TarballError>,
>)
    ensures
        r is Some ==> entries_budget(*final(it)) < entries_budget(*old(it)),
        entries_left(*old(it)) matches Some(es) ==> {
            &&& es.len() == 0 ==> r is None && entries_left(*final(it)) == Some(
                Seq::<(Seq<char>, Seq<u8>, u32, u64, u64, u64)>::empty(),
            )
            &&& es.len() > 0 ==> (r matches Some(Ok(e)) && entry_item(e) == es[0] && entry_wf(e)
                && entries_left(*final(it)) == Some(es.skip(1)))
        },
        r matches Some(Err(e)) ==> e == TarballError::ArchiveReadFailure,
{
    match it.inner.next() {
        None => None,
        Some(Ok(entry)) => Some(Ok(EntryHandle { inner: entry })),
        Some(Err(_)) => Some(Err(TarballError::ArchiveReadFailure)),
    }
}

/// Relies on `tar::Entry::path`: the stored name, when it decodes as
/// text; an entry of a well-formed stream always decodes, to its name in
/// the model.
#[verifier::external_body]
pub(crate) fn entry_name(e: &EntryHandle) -> (r: Option<String>)
    ensures
        entry_wf(*e) ==> r is Some,
        entry_wf(*e) && r is Some ==> r->0@ == entry_item(*e).0,
{
    match e.inner.path() {
        Ok(p) => p.to_str().map(|s| s.to_string()),
        Err(_) => None,
    }
}

/// Relies on `tar::Header::mode`: the mode bits stored in the entry's
/// header, when the field parses as octal. In the model, an entry whose
/// mode field does not parse carries mode 0.
#[verifier::external_body]
pub(crate) fn entry_mode(e: &EntryHandle) -> (r: Option<u32>)
    ensures
        entry_wf(*e) && r is Some ==> r->0 == entry_item(*e).2,
        entry_wf(*e) && r is None ==> entry_item(*e).2 == 0,
{
    e.inner.header().mode().ok()
}

/// Relies on `tar::Header::mtime`: the modification time stored in the
/// entry's header, when the field parses; an entry whose field does not
/// parse carries modification time 0 in the model.
#[verifier::external_body]
pub(crate) fn entry_mtime(e: &EntryHandle) -> (r: Option<u64>)
    ensures
        entry_wf(*e) && r is Some ==> r->0 == entry_item(*e).3,
        entry_wf(*e) && r is None ==> entry_item(*e).3 == 0,
{
    e.inner.header().mtime().ok()
}

/// Relies on `tar::Header::uid`: the owner id stored in the entry's
/// header, when the field parses; an entry whose field does not parse
/// carries owner id 0 in the model.
#[verifier::external_body]
pub(crate) fn entry_uid(e: &EntryHandle) -> (r: Option<u64>)
    ensures
        entry_wf(*e) && r is Some ==> r->0 == entry_item(*e).4,
        entry_wf(*e) && r is None ==> entry_item(*e).4 == 0,
{
    e.inner.header().uid().ok()
}

/// Relies on `tar::Header::gid`: the group id stored in the entry's
/// header, when the field parses; an entry whose field does not parse
/// carries group id 0 in the model.
#[verifier::external_body]
pub(crate) fn entry_gid(e: &EntryHandle) -> (r: Option<u64>)
    ensures
        entry_wf(*e) && r is Some ==> r->0 == entry_item(*e).5,
        entry_wf(*e) && r is None ==> entry_item(*e).5 == 0,
{
    e.inner.header().gid().ok()
}

/// Relies on `std::io::Read::read_to_end` on the entry: reading the
/// content of an entry of a well-formed in-memory stream cannot fail and
/// yields exactly the stored bytes.
#[verifier::external_body]
pub(crate) fn entry_data(e: &mut EntryHandle) -> (r: Result<Vec<u8>, TarballError>)
    ensures
        entry_wf(*old(e)) ==> r is Ok,
        entry_wf(*old(e)) && r is Ok ==> r->Ok_0@ == entry_item(*old(e)).1,
        r matches Err(err) ==> err == TarballError::ArchiveReadFailure,
{
    let mut out: Vec<u8> = Vec::new();
    match std::io::Read::read_to_end(&mut e.inner, &mut out) {
        Ok(_) => Ok(out),
        Err(_) => Err(TarballError::ArchiveReadFailure),
    }
}

} // verus!
