//! The write pipeline: collect entries, serialize them into one
//! container byte stream, and drive that stream through the codec in
//! fixed-size chunks with progress accounting.
//!
//! The writer is a mutable configuration object; `compress` is its one
//! terminal operation and consults the configuration frozen at call
//! time. The caller reads each registered source file and hands its
//! bytes in; the finished compressed artifact comes back as bytes.

use crate::clock::{clock_now, millis_since};
use crate::codec::{enc_fed, enc_level, xz_bytes, xz_encoder_new, xz_finish, xz_plain, xz_write};
use crate::container::{
    entries_data_len, tar_append, tar_building, tar_bytes, tar_finish, tar_parse, tar_sink_new,
};
use crate::error::TarballError;
use crate::names::{
    join_under_prefix, joined_name, rel_to_root, relative_to_root, strip_leading_separator,
    stripped_name, tar_name_ok, tar_name_valid,
};
use crate::progress::{event_consistent, progress_sample, ProgressEvent};
use crate::walk::{path_kind, walk_next, walk_open, walk_budget};
use vstd::prelude::*;

verus! {

/// The mode bits written into every entry's header: the container is
/// built from byte contents, not from disk metadata, so a fixed regular
/// file mode is used.
pub const ENTRY_MODE: u32 = 0o644;

/// One registered source: a filesystem path and the destination name it
/// will carry inside the archive.
#[derive(Debug, Clone)]
pub struct ArchiveEntry {
    pub filesystem_path: String,
    pub archive_path: String,
}

/// Options for building and compressing one archive.
#[derive(Debug, Clone)]
pub struct LZMATarballWriter {
    /// Codec preset, always kept in 0..=9.
    pub compression_level: u8,
    /// Chunk size in whole kilobytes for the encode loop.
    pub buffer_size: u16,
    /// Where the caller will put the artifact; part of the result.
    pub output_file: Option<String>,
    /// The scratch container path an I/O layer may use; the pipeline
    /// itself keeps the container in memory.
    pub tar_file: String,
    /// The registered entries, in registration order.
    pub archive_paths: Vec<ArchiveEntry>,
}

/// Result of one successful compression run.
#[derive(Debug, Clone)]
pub struct LZMAResult {
    /// The configured output path, echoed back.
    pub output_file: String,
    /// Size of the compressed artifact in bytes.
    pub size: u64,
    /// Size of the uncompressed container in bytes. The container frames
    /// each entry, so this exceeds the total size of the contents.
    pub original_size: u64,
    /// Wall-clock duration of the run, in milliseconds.
    pub elapsed_time: u64,
}

/// Everything a compression run produces: the artifact bytes to be
/// written to the output path, the accounting result, and the progress
/// samples taken along the way.
#[derive(Debug, Clone)]
pub struct CompressOutput {
    pub artifact: Vec<u8>,
    pub result: LZMAResult,
    pub events: Vec<ProgressEvent>,
}

/// A requested level clamped into the codec's 0..=9 range.
pub open spec fn clamped_level(level: u8) -> u8 {
    if level > 9 {
        9
    } else {
        level
    }
}

/// The container entries a writer will build: each registered
/// destination name with one leading separator stripped, paired with the
/// caller-supplied content bytes, the fixed entry mode, and zeroed
/// modification time and ownership.
pub open spec fn planned_items(entries: Seq<ArchiveEntry>, contents: Seq<Seq<u8>>) -> Seq<
    (Seq<char>, Seq<u8>, u32, u64, u64, u64),
> {
    Seq::new(
        entries.len(),
        |i: int|
            (
                stripped_name(entries[i].archive_path@),
                contents[i],
                ENTRY_MODE,
                0u64,
                0u64,
                0u64,
            ),
    )
}

/// The byte contents of a list of buffers, in order.
pub open spec fn vec_views(cs: Seq<Vec<u8>>) -> Seq<Seq<u8>> {
    cs.map_values(|c: Vec<u8>| c@)
}

/// Every planned destination name is one the container writer accepts.
pub open spec fn names_ok(entries: Seq<ArchiveEntry>) -> bool {
    forall|i: int| 0 <= i < entries.len() ==> tar_name_ok(
        stripped_name(#[trigger] entries[i].archive_path@),
    )
}

/// The two writers hold the same options outside the entry list.
pub open spec fn same_options(a: LZMATarballWriter, b: LZMATarballWriter) -> bool {
    &&& b.compression_level == a.compression_level
    &&& b.buffer_size == a.buffer_size
    &&& b.output_file == a.output_file
    &&& b.tar_file == a.tar_file
}

/// The second writer keeps the first one's entries as a prefix.
pub open spec fn keeps_entries(a: LZMATarballWriter, b: LZMATarballWriter) -> bool {
    &&& b.archive_paths@.len() >= a.archive_paths@.len()
    &&& b.archive_paths@.take(a.archive_paths@.len() as int) == a.archive_paths@
}

/// An entry registered from a walk under `root`: its source lies under
/// the root and its destination is the prefix joined with the
/// root-relative path.
pub open spec fn walked_entry(e: ArchiveEntry, root: Seq<char>, prefix: Seq<char>) -> bool {
    exists|rel: Seq<char>|
        rel_to_root(e.filesystem_path@, root) == Some(rel) && e.archive_path@ == joined_name(
            prefix,
            rel,
        )
}

impl LZMATarballWriter {
    /// A writer with the default settings: level 6, 64 KB chunks, no
    /// output path, no scratch path, and no entries. An I/O layer that
    /// wants a scratch container on disk picks a fresh path for
    /// `tar_file` itself.
    pub fn new() -> (w: Self)
        ensures
            w.compression_level == 6,
            w.buffer_size == 64,
            w.output_file is None,
            w.tar_file@ == Seq::<char>::empty(),
            w.archive_paths@ == Seq::<ArchiveEntry>::empty(),
    {
        LZMATarballWriter {
            compression_level: 6,
            buffer_size: 64,
            output_file: None,
            tar_file: String::new(),
            archive_paths: Vec::new(),
        }
    }

    /// Sets the compression level, clamped into 0..=9.
    pub fn set_compression_level(&mut self, level: u8) -> (r: &mut Self)
        ensures
            *r == (LZMATarballWriter { compression_level: clamped_level(level), ..*old(self) }),
            *final(self) == *final(r),
    {
        self.compression_level = if level > 9 {
            9
        } else {
            level
        };
        self
    }

    /// Sets the chunk size in kilobytes.
    pub fn set_buffer_size(&mut self, size: u16) -> (r: &mut Self)
        ensures
            *r == (LZMATarballWriter { buffer_size: size, ..*old(self) }),
            *final(self) == *final(r),
    {
        self.buffer_size = size;
        self
    }

    /// Sets the scratch container path for an I/O layer to use.
    pub fn set_tar_file(&mut self, tar_file: String) -> (r: &mut Self)
        ensures
            *r == (LZMATarballWriter { tar_file, ..*old(self) }),
            *final(self) == *final(r),
    {
        self.tar_file = tar_file;
        self
    }

    /// Sets the output artifact path. Creating its parent directories is
    /// the caller's part, done before the artifact bytes are written.
    pub fn set_output(&mut self, output_file: String) -> (r: &mut Self)
        ensures
            *r == (LZMATarballWriter { output_file: Some(output_file), ..*old(self) }),
            *final(self) == *final(r),
    {
        self.output_file = Some(output_file);
        self
    }

    /// Registers one file under the given destination name.
    pub fn with_file(&mut self, input_file: &str, archive_path: &str) -> (r: &mut Self)
        ensures
            r.archive_paths@.len() == old(self).archive_paths@.len() + 1,
            r.archive_paths@.last().filesystem_path@ == input_file@,
            r.archive_paths@.last().archive_path@ == archive_path@,
            r.archive_paths@.drop_last() == old(self).archive_paths@,
            r.compression_level == old(self).compression_level,
            r.buffer_size == old(self).buffer_size,
            r.output_file == old(self).output_file,
            r.tar_file == old(self).tar_file,
            *final(self) == *final(r),
    {
        self.archive_paths.push(
            ArchiveEntry {
                filesystem_path: String::from_str(input_file),
                archive_path: String::from_str(archive_path),
            },
        );
        self
    }

    /// Moves the given entries to the end of the registration list, in
    /// their order, leaving the given list empty.
    pub fn with_files(&mut self, input_files: &mut Vec<ArchiveEntry>) -> (r: &mut Self)
        ensures
            r.archive_paths@ == old(self).archive_paths@ + old(input_files)@,
            final(input_files)@ == Seq::<ArchiveEntry>::empty(),
            r.compression_level == old(self).compression_level,
            r.buffer_size == old(self).buffer_size,
            r.output_file == old(self).output_file,
            r.tar_file == old(self).tar_file,
            *final(self) == *final(r),
    {
        self.archive_paths.append(input_files);
        self
    }

    /// Registers every regular file found under a directory subtree for
    /// which the filter accepts the file's path. A file's destination is
    /// the given prefix joined with its path relative to the subtree
    /// root. Items that raise errors during traversal are skipped, not
    /// fatal.
    pub fn with_filtered_directory_contents<F: Fn(&String) -> bool>(
        &mut self,
        input_directory: &str,
        archive_path: &str,
        filter: &F,
    ) -> (r: &mut Self)
        requires
            forall|p: &String| call_requires(*filter, (p,)),
        ensures
            same_options(*old(self), *r),
            keeps_entries(*old(self), *r),
            forall|k: int|
                old(self).archive_paths@.len() <= k < r.archive_paths@.len() ==> walked_entry(
                    #[trigger] r.archive_paths@[k],
                    input_directory@,
                    archive_path@,
                ) && call_ensures(*filter, (&r.archive_paths@[k].filesystem_path,), true),
            *final(self) == *final(r),
    {
        let mut w = walk_open(input_directory);
        proof {
            assert(self.archive_paths@.take(old(self).archive_paths@.len() as int) =~= old(
                self,
            ).archive_paths@);
        }
        loop
            invariant
                forall|p: &String| call_requires(*filter, (p,)),
                same_options(*old(self), *self),
                keeps_entries(*old(self), *self),
                forall|k: int|
                    old(self).archive_paths@.len() <= k < self.archive_paths@.len()
                        ==> walked_entry(
                        #[trigger] self.archive_paths@[k],
                        input_directory@,
                        archive_path@,
                    ) && call_ensures(*filter, (&self.archive_paths@[k].filesystem_path,), true),
            decreases walk_budget(w),
        {
            match walk_next(&mut w) {
                None => {
                    break;
                },
                Some(None) => {},
                Some(Some((path, is_file))) => {
                    if is_file && filter(&path) {
                        match relative_to_root(path.as_str(), input_directory) {
                            Some(rel) => {
                                let name = join_under_prefix(archive_path, rel.as_str());
                                self.archive_paths.push(
                                    ArchiveEntry { filesystem_path: path, archive_path: name },
                                );
                                proof {
                                    assert(self.archive_paths@.take(
                                        old(self).archive_paths@.len() as int,
                                    ) =~= old(self).archive_paths@);
                                }
                            },
                            None => {},
                        }
                    }
                },
            }
        }
        self
    }

    /// Registers every regular file found under a directory subtree,
    /// each under the given prefix joined with its root-relative path.
    pub fn with_directory_contents(&mut self, input_directory: &str, archive_path: &str) -> (r:
        &mut Self)
        ensures
            same_options(*old(self), *r),
            keeps_entries(*old(self), *r),
            forall|k: int|
                old(self).archive_paths@.len() <= k < r.archive_paths@.len() ==> walked_entry(
                    #[trigger] r.archive_paths@[k],
                    input_directory@,
                    archive_path@,
                ),
            *final(self) == *final(r),
    {
        let accept_all = |p: &String| -> (b: bool)
            ensures
                b,
            {
                true
            };
        self.with_filtered_directory_contents(input_directory, archive_path, &accept_all)
    }

    /// Looks at what the path names and registers it: a directory's
    /// contents as a subtree, anything else as one file. Fails when the
    /// path's metadata cannot be read.
    pub fn with_path(&mut self, input_path: &str, archive_path: &str) -> (r: Result<
        (),
        TarballError,
    >)
        ensures
            r matches Err(e) ==> e == TarballError::PathNotFound && *final(self) == *old(self),
            r is Ok ==> same_options(*old(self), *final(self)) && keeps_entries(
                *old(self),
                *final(self),
            ),
            r is Ok ==> ({
                ||| (final(self).archive_paths@.len() == old(self).archive_paths@.len() + 1
                    && final(self).archive_paths@.last().filesystem_path@ == input_path@
                    && final(self).archive_paths@.last().archive_path@ == archive_path@)
                ||| forall|k: int|
                    old(self).archive_paths@.len() <= k < final(self).archive_paths@.len()
                        ==> walked_entry(
                        #[trigger] final(self).archive_paths@[k],
                        input_path@,
                        archive_path@,
                    )
            }),
    {
        match path_kind(input_path) {
            None => Err(TarballError::PathNotFound),
            Some(true) => {
                self.with_directory_contents(input_path, archive_path);
                Ok(())
            },
            Some(false) => {
                self.with_file(input_path, archive_path);
                Ok(())
            },
        }
    }

    /// Serializes the registered entries, paired with their contents,
    /// into one finished container byte stream. Fails exactly when some
    /// stripped destination name is not one the container accepts.
    fn create_tar(&self, contents: &Vec<Vec<u8>>) -> (r: Result<Vec<u8>, TarballError>)
        requires
            contents@.len() == self.archive_paths@.len(),
        ensures
            r is Ok <==> names_ok(self.archive_paths@),
            r is Ok ==> ({
                let planned = planned_items(self.archive_paths@, vec_views(contents@));
                &&& r->Ok_0@ == tar_bytes(planned)
                &&& r->Ok_0@.len() >= entries_data_len(planned) + 1024
                &&& tar_parse(tar_bytes(planned), false) == Some(planned)
                &&& tar_parse(tar_bytes(planned), true) == Some(planned)
            }),
            r matches Err(e) ==> e == TarballError::ArchiveWriteFailure,
    {
        let ghost planned = planned_items(self.archive_paths@, vec_views(contents@));
        let mut sink = tar_sink_new();
        let n = self.archive_paths.len();
        let mut i: usize = 0;
        proof {
            assert(tar_building(sink) =~= planned.take(0));
        }
        while i < n
            invariant
                contents@.len() == self.archive_paths@.len(),
                n == self.archive_paths@.len(),
                0 <= i <= n,
                planned == planned_items(self.archive_paths@, vec_views(contents@)),
                tar_building(sink) == planned.take(i as int),
                forall|j: int| 0 <= j < i ==> tar_name_ok(
                    stripped_name(#[trigger] self.archive_paths@[j].archive_path@),
                ),
            decreases n - i,
        {
            let stripped = strip_leading_separator(self.archive_paths[i].archive_path.as_str());
            if !tar_name_valid(stripped.as_str()) {
                return Err(TarballError::ArchiveWriteFailure);
            }
            match tar_append(&mut sink, stripped.as_str(), ENTRY_MODE, &contents[i]) {
                Ok(()) => {},
                Err(_) => {
                    return Err(TarballError::ArchiveWriteFailure);
                },
            }
            proof {
                assert(planned[i as int] == (
                    stripped_name(self.archive_paths@[i as int].archive_path@),
                    vec_views(contents@)[i as int],
                    ENTRY_MODE,
                    0u64,
                    0u64,
                    0u64,
                ));
                assert(tar_building(sink) =~= planned.take(i as int + 1));
            }
            i += 1;
        }
        proof {
            assert(planned.take(n as int) =~= planned);
        }
        match tar_finish(sink) {
            Ok(v) => Ok(v),
            Err(_) => Err(TarballError::ArchiveWriteFailure),
        }
    }

    /// Compresses the registered entries into one artifact.
    ///
    /// `contents` holds, in registration order, the bytes of each
    /// registered source file; the caller reads them from disk and
    /// writes the returned artifact to the configured output path. The
    /// two phases are sequential: the container is finished first, so
    /// its size is known before the codec loop starts, and
    /// `original_size` reports exactly that container size. Progress is
    /// sampled at most once per elapsed whole second; a run that
    /// finishes in under one second reports no samples.
    pub fn compress(&self, contents: &Vec<Vec<u8>>) -> (r: Result<CompressOutput, TarballError>)
        requires
            contents@.len() == self.archive_paths@.len(),
            self.compression_level <= 9,
            self.buffer_size >= 1,
        ensures
            r is Ok <==> (self.archive_paths@.len() > 0 && self.output_file is Some && names_ok(
                self.archive_paths@,
            )),
            r is Ok ==> ({
                let planned = planned_items(self.archive_paths@, vec_views(contents@));
                &&& r->Ok_0.artifact@ == xz_bytes(
                    tar_bytes(planned),
                    self.compression_level as u32,
                )
                &&& xz_plain(r->Ok_0.artifact@) == Some(tar_bytes(planned))
                &&& tar_parse(tar_bytes(planned), false) == Some(planned)
                &&& tar_parse(tar_bytes(planned), true) == Some(planned)
                &&& r->Ok_0.result.original_size == tar_bytes(planned).len()
                &&& r->Ok_0.result.original_size >= entries_data_len(planned) + 1024
                &&& r->Ok_0.result.size == r->Ok_0.artifact@.len()
                &&& (self.output_file matches Some(f) && r->Ok_0.result.output_file@ == f@)
                &&& forall|k: int|
                    0 <= k < r->Ok_0.events@.len() ==> event_consistent(#[trigger] r->Ok_0.events@[k])
                        && r->Ok_0.events@[k].bytes_processed <= r->Ok_0.result.original_size
                &&& forall|k1: int, k2: int|
                    0 <= k1 <= k2 < r->Ok_0.events@.len() ==> #[trigger] r->Ok_0.events@[k1].bytes_processed
                        <= #[trigger] r->Ok_0.events@[k2].bytes_processed
                &&& forall|k1: int, k2: int|
                    0 <= k1 < k2 < r->Ok_0.events@.len() ==> #[trigger] r->Ok_0.events@[k1].elapsed_seconds
                        < #[trigger] r->Ok_0.events@[k2].elapsed_seconds
            }),
            r matches Err(e) ==> {
                &&& (e == TarballError::ConfigurationIncomplete <==> (self.archive_paths@.len()
                    == 0 || self.output_file is None))
                &&& (e == TarballError::ArchiveWriteFailure <==> (self.archive_paths@.len() > 0
                    && self.output_file is Some && !names_ok(self.archive_paths@)))
            },
    {
        if self.archive_paths.len() == 0 {
            return Err(TarballError::ConfigurationIncomplete);
        }
        let output_file = match &self.output_file {
            Some(f) => f,
            None => {
                return Err(TarballError::ConfigurationIncomplete);
            },
        };
        let start = clock_now();
        let tar_data = match self.create_tar(contents) {
            Ok(v) => v,
            Err(_) => {
                return Err(TarballError::ArchiveWriteFailure);
            },
        };
        let (artifact, events) = match compress_tar(
            &tar_data,
            self.compression_level as u32,
            self.buffer_size,
            &start,
        ) {
            Ok(p) => p,
            Err(_) => {
                return Err(TarballError::CompressionFailure);
            },
        };
        let original_size = tar_data.len() as u64;
        let size = artifact.len() as u64;
        let elapsed_time = millis_since(&start);
        Ok(
            CompressOutput {
                artifact,
                result: LZMAResult {
                    output_file: output_file.clone(),
                    size,
                    original_size,
                    elapsed_time,
                },
                events,
            },
        )
    }
}

/// Drives a finished container byte stream through the codec in chunks
/// of `buffer_size` whole kilobytes. A progress sample is taken after a
/// chunk only when the count of whole seconds elapsed since `start` has
/// advanced past the last sample's, so the samples carry strictly
/// increasing whole-second readings: at most one per elapsed second.
fn compress_tar(
    tar_data: &Vec<u8>,
    level: u32,
    buffer_size: u16,
    start: &std::time::Instant,
) -> (r: Result<(Vec<u8>, Vec<ProgressEvent>), TarballError>)
    requires
        level <= 9,
        buffer_size >= 1,
    ensures
        r is Ok,
        r is Ok ==> r->Ok_0.0@ == xz_bytes(tar_data@, level) && xz_plain(r->Ok_0.0@) == Some(
            tar_data@,
        ),
        r is Ok ==> forall|k: int|
            0 <= k < r->Ok_0.1@.len() ==> event_consistent(#[trigger] r->Ok_0.1@[k])
                && r->Ok_0.1@[k].bytes_processed <= tar_data@.len(),
        r is Ok ==> forall|k1: int, k2: int|
            0 <= k1 <= k2 < r->Ok_0.1@.len() ==> #[trigger] r->Ok_0.1@[k1].bytes_processed
                <= #[trigger] r->Ok_0.1@[k2].bytes_processed,
        r is Ok ==> forall|k1: int, k2: int|
            0 <= k1 < k2 < r->Ok_0.1@.len() ==> #[trigger] r->Ok_0.1@[k1].elapsed_seconds
                < #[trigger] r->Ok_0.1@[k2].elapsed_seconds,
{
    let mut enc = xz_encoder_new(level);
    let chunk: usize = 1024 * (buffer_size as usize);
    let total: usize = tar_data.len();
    let mut pos: usize = 0;
    let mut events: Vec<ProgressEvent> = Vec::new();
    let mut last_whole_second: u64 = 0;
    proof {
        assert(enc_fed(enc) =~= tar_data@.take(0));
    }
    while pos < total
        invariant
            chunk >= 1024,
            level <= 9,
            0 <= pos <= total,
            total == tar_data@.len(),
            enc_fed(enc) == tar_data@.take(pos as int),
            enc_level(enc) == level,
            forall|k: int| 0 <= k < events@.len() ==> event_consistent(#[trigger] events@[k])
                && events@[k].bytes_processed <= pos,
            forall|k1: int, k2: int|
                0 <= k1 <= k2 < events@.len() ==> #[trigger] events@[k1].bytes_processed
                    <= #[trigger] events@[k2].bytes_processed,
            forall|k: int| 0 <= k < events@.len() ==> #[trigger] events@[k].elapsed_seconds
                <= last_whole_second,
            forall|k1: int, k2: int|
                0 <= k1 < k2 < events@.len() ==> #[trigger] events@[k1].elapsed_seconds
                    < #[trigger] events@[k2].elapsed_seconds,
        decreases total - pos,
    {
        let end = if total - pos < chunk {
            total
        } else {
            pos + chunk
        };
        let piece = &tar_data.as_slice()[pos..end];
        match xz_write(&mut enc, piece) {
            Ok(()) => {},
            Err(_) => {
                return Err(TarballError::CompressionFailure);
            },
        }
        proof {
            assert(tar_data@.take(pos as int) + tar_data@.subrange(pos as int, end as int)
                =~= tar_data@.take(end as int));
        }
        pos = end;
        let ms = millis_since(start);
        match progress_sample(pos as u64, ms) {
            Some(ev) => {
                if ev.elapsed_seconds > last_whole_second {
                    last_whole_second = ev.elapsed_seconds;
                    events.push(ev);
                }
            },
            None => {},
        }
    }
    proof {
        assert(tar_data@.take(total as int) =~= tar_data@);
    }
    match xz_finish(enc) {
        Ok(v) => Ok((v, events)),
        Err(_) => Err(TarballError::CompressionFailure),
    }
}

} // verus!
