//! The read pipeline: decode a compressed artifact, list the container's
//! entry names, and produce the unpack plan that an I/O layer
//! materializes to disk under the extraction policy.
//!
//! The reader is a mutable configuration object; its terminal operations
//! consult the configuration frozen at call time. The caller reads the
//! artifact bytes from disk and hands them in.

use crate::codec::{xz_decode, xz_plain};
use crate::container::{
    archive_entries, archive_open, entries_budget, entries_left, entries_next, entry_data,
    entry_gid, entry_item, entry_mode, entry_mtime, entry_name, entry_names, entry_uid, entry_wf,
    tar_parse,
};
use crate::error::TarballError;
use vstd::prelude::*;

verus! {

/// Reads and unpacks LZMA-compressed container archives under a policy.
#[derive(Debug, Clone)]
pub struct LZMATarballReader {
    pub archive_file: Option<String>,
    pub output: Option<String>,
    pub overwrite: bool,
    pub mask: u32,
    pub ignore_zeros: bool,
    pub preserve_mtime: bool,
    pub preserve_ownerships: bool,
    pub preserve_permissions: bool,
    pub unpack_xattrs: bool,
}

/// Result of one decompression run.
#[derive(Debug, Clone)]
pub struct DecompressionResult {
    /// Wall-clock duration of the run, in milliseconds.
    pub elapsed_time: u64,
    /// The listed entry names, in container order.
    pub files: Vec<String>,
    /// Total on-disk size of the extracted files, as re-measured after
    /// unpacking.
    pub total_size: u64,
}

/// One entry of the unpack plan: where to write, what to write, and the
/// metadata to restore under the policy.
#[derive(Debug, Clone)]
pub struct ExtractedEntry {
    pub path: String,
    pub contents: Vec<u8>,
    /// The permission bits to set: the stored mode, with everything
    /// above the classic bits cleared unless permissions are preserved,
    /// and the policy's mask applied.
    pub mode: u32,
    /// The stored modification time to restore, or nothing when the
    /// policy leaves times alone; a stored time of zero is restored as
    /// one second, as the container reader does.
    pub mtime: Option<u64>,
    /// The stored owner and group ids to restore, or nothing when the
    /// policy leaves ownership alone.
    pub ownership: Option<(u64, u64)>,
}

/// The plan entry the policy produces for one parsed container entry.
pub open spec fn extracted_matches(
    x: ExtractedEntry,
    item: (Seq<char>, Seq<u8>, u32, u64, u64, u64),
    mask: u32,
    preserve_permissions: bool,
    preserve_mtime: bool,
    preserve_ownerships: bool,
) -> bool {
    &&& x.path@ == item.0
    &&& x.contents@ == item.1
    &&& x.mode == (if preserve_permissions {
        item.2
    } else {
        item.2 & 0o777
    }) & !mask
    &&& x.mtime == (if preserve_mtime {
        Some(
            if item.3 == 0 {
                1u64
            } else {
                item.3
            },
        )
    } else {
        None::<u64>
    })
    &&& x.ownership == (if preserve_ownerships {
        Some((item.4, item.5))
    } else {
        None::<(u64, u64)>
    })
}

/// What the whole artifact parses to: the codec's content interpreted as
/// a container, when both steps succeed.
pub open spec fn parse_archive(data: Seq<u8>, ignore_zeros: bool) -> Option<
    Seq<(Seq<char>, Seq<u8>, u32, u64, u64, u64)>,
> {
    match xz_plain(data) {
        Some(container) => tar_parse(container, ignore_zeros),
        None => None,
    }
}

/// The two readers hold the same policy flags.
pub open spec fn same_policy(a: LZMATarballReader, b: LZMATarballReader) -> bool {
    &&& b.overwrite == a.overwrite
    &&& b.mask == a.mask
    &&& b.ignore_zeros == a.ignore_zeros
    &&& b.preserve_mtime == a.preserve_mtime
    &&& b.preserve_ownerships == a.preserve_ownerships
    &&& b.preserve_permissions == a.preserve_permissions
    &&& b.unpack_xattrs == a.unpack_xattrs
}

/// The character contents of a list of strings, in order.
pub open spec fn string_views(ss: Seq<String>) -> Seq<Seq<char>> {
    ss.map_values(|s: String| s@)
}

/// The total of a list of sizes.
pub open spec fn sum64(s: Seq<u64>) -> int
    decreases s.len(),
{
    if s.len() == 0 {
        0
    } else {
        sum64(s.drop_last()) + s.last()
    }
}

/// Every prefix total is bounded by the whole total.
proof fn lemma_sum64_take_bound(s: Seq<u64>, i: int)
    requires
        0 <= i <= s.len(),
    ensures
        sum64(s.take(i)) <= sum64(s),
    decreases s.len() - i,
{
    if i < s.len() {
        assert(s.take(i + 1).drop_last() =~= s.take(i));
        lemma_sum64_take_bound(s, i + 1);
    } else {
        assert(s.take(i) =~= s);
    }
}

impl LZMATarballReader {
    /// A reader with the default policy: no overwriting, no permission
    /// mask, no zero-block tolerance, metadata preserved, extended
    /// attributes not extracted.
    pub fn new() -> (r: Self)
        ensures
            r.archive_file is None,
            r.output is None,
            r.overwrite == false,
            r.mask == 0,
            r.ignore_zeros == false,
            r.preserve_mtime == true,
            r.preserve_ownerships == true,
            r.preserve_permissions == true,
            r.unpack_xattrs == false,
    {
        LZMATarballReader {
            archive_file: None,
            output: None,
            overwrite: false,
            mask: 0,
            ignore_zeros: false,
            preserve_mtime: true,
            preserve_ownerships: true,
            preserve_permissions: true,
            unpack_xattrs: false,
        }
    }

    /// Sets the archive path. The caller reports whether the path names
    /// an existing file; a missing archive is rejected here, at
    /// configuration time.
    pub fn set_archive(&mut self, archive: &str, exists: bool) -> (r: Result<
        &mut Self,
        TarballError,
    >)
        ensures
            exists ==> (r matches Ok(s) && s.archive_file matches Some(f) && f@ == archive@
                && s.output == old(self).output && same_policy(*old(self), *s) && *final(self)
                == *final(s)),
            !exists ==> (r matches Err(e) && e == TarballError::ArchiveNotFound && *final(self)
                == *old(self)),
    {
        if exists {
            self.archive_file = Some(String::from_str(archive));
            Ok(self)
        } else {
            Err(TarballError::ArchiveNotFound)
        }
    }

    /// Sets the output directory for unpacking. Creating the directory
    /// on disk is the I/O layer's part.
    pub fn set_output_directory(&mut self, output_dir: &str) -> (r: Result<
        &mut Self,
        TarballError,
    >)
        ensures
            r matches Ok(s) && s.output matches Some(f) && f@ == output_dir@ && s.archive_file
                == old(self).archive_file && same_policy(*old(self), *s)
                && *final(self) == *final(s),
    {
        self.output = Some(String::from_str(output_dir));
        Ok(self)
    }

    /// Sets whether existing files are overwritten when unpacking.
    pub fn set_overwrite(&mut self, overwrite: bool) -> (r: &mut Self)
        ensures
            *r == (LZMATarballReader { overwrite, ..*old(self) }),
            *final(self) == *final(r),
    {
        self.overwrite = overwrite;
        self
    }

    /// Sets the permission mask applied to each entry's mode bits.
    pub fn set_mask(&mut self, mask: u32) -> (r: &mut Self)
        ensures
            *r == (LZMATarballReader { mask, ..*old(self) }),
            *final(self) == *final(r),
    {
        self.mask = mask;
        self
    }

    /// Sets whether zeroed blocks end the archive or are read past.
    pub fn set_ignore_zeros(&mut self, ignore_zeros: bool) -> (r: &mut Self)
        ensures
            *r == (LZMATarballReader { ignore_zeros, ..*old(self) }),
            *final(self) == *final(r),
    {
        self.ignore_zeros = ignore_zeros;
        self
    }

    /// Sets whether stored modification times are preserved on disk.
    pub fn set_preserve_mtime(&mut self, preserve_mtime: bool) -> (r: &mut Self)
        ensures
            *r == (LZMATarballReader { preserve_mtime, ..*old(self) }),
            *final(self) == *final(r),
    {
        self.preserve_mtime = preserve_mtime;
        self
    }

    /// Sets whether stored ownership ids are preserved on disk.
    pub fn set_preserve_ownerships(&mut self, preserve_ownerships: bool) -> (r: &mut Self)
        ensures
            *r == (LZMATarballReader { preserve_ownerships, ..*old(self) }),
            *final(self) == *final(r),
    {
        self.preserve_ownerships = preserve_ownerships;
        self
    }

    /// Sets whether stored permission bits are preserved on disk.
    pub fn set_preserve_permissions(&mut self, preserve_permissions: bool) -> (r: &mut Self)
        ensures
            *r == (LZMATarballReader { preserve_permissions, ..*old(self) }),
            *final(self) == *final(r),
    {
        self.preserve_permissions = preserve_permissions;
        self
    }

    /// The overwrite decision for one entry: it is written when
    /// overwriting is allowed or nothing is in its way; an entry whose
    /// file already exists under `overwrite == false` is skipped, not an
    /// error.
    pub fn should_extract(&self, already_exists: bool) -> (r: bool)
        ensures
            r == (self.overwrite || !already_exists),
    {
        self.overwrite || !already_exists
    }

    /// Lists the entry names stored in the given artifact bytes, in
    /// container order. Entries whose stored name does not decode as
    /// text are skipped, mirroring the collector's traversal policy.
    pub fn entries(&self, data: &Vec<u8>) -> (r: Result<Vec<String>, TarballError>)
        ensures
            self.archive_file is None ==> (r matches Err(e) && e
                == TarballError::ConfigurationIncomplete),
            r is Ok ==> self.archive_file is Some,
            r matches Err(e) ==> e == TarballError::ConfigurationIncomplete || e
                == TarballError::ArchiveReadFailure,
            r matches Err(e) && e == TarballError::ArchiveReadFailure ==> parse_archive(
                data@,
                self.ignore_zeros,
            ) is None,
            r matches Err(e) && e == TarballError::ConfigurationIncomplete ==> self.archive_file
                is None,
            self.archive_file is Some ==> (xz_plain(data@) is None ==> (r matches Err(e) && e
                == TarballError::ArchiveReadFailure)),
            self.archive_file is Some ==> (parse_archive(data@, self.ignore_zeros) matches Some(
                es,
            ) ==> (r matches Ok(names) && string_views(names@) == entry_names(es))),
    {
        if self.archive_file.is_none() {
            return Err(TarballError::ConfigurationIncomplete);
        }
        let decoded = match xz_decode(data) {
            Ok(v) => v,
            Err(_) => {
                return Err(TarballError::ArchiveReadFailure);
            },
        };
        let ghost parsed = tar_parse(decoded@, self.ignore_zeros);
        let mut archive = archive_open(decoded.as_slice(), self.ignore_zeros);
        let mut it = match archive_entries(&mut archive) {
            Ok(it) => it,
            Err(_) => {
                return Err(TarballError::ArchiveReadFailure);
            },
        };
        let mut names: Vec<String> = Vec::new();
        let ghost mut done: Seq<(Seq<char>, Seq<u8>, u32, u64, u64, u64)> = Seq::empty();
        proof {
            if let Some(es) = parsed {
                assert(done =~= es.take(0));
                assert(string_views(names@) =~= entry_names(done));
            }
        }
        loop
            invariant
                self.archive_file is Some,
                xz_plain(data@) == Some(decoded@),
                parsed == tar_parse(decoded@, self.ignore_zeros),
                parsed matches Some(es) ==> {
                    &&& 0 <= done.len() <= es.len()
                    &&& done == es.take(done.len() as int)
                    &&& entries_left(it) == Some(es.skip(done.len() as int))
                    &&& string_views(names@) == entry_names(done)
                },
            decreases entries_budget(it),
        {
            match entries_next(&mut it) {
                None => {
                    proof {
                        if let Some(es) = parsed {
                            assert(es.skip(done.len() as int).len() == 0);
                            assert(done =~= es);
                        }
                    }
                    return Ok(names);
                },
                Some(Err(_)) => {
                    return Err(TarballError::ArchiveReadFailure);
                },
                Some(Ok(e)) => {
                    proof {
                        if let Some(es) = parsed {
                            assert(es.skip(done.len() as int).len() > 0);
                            assert(entry_item(e) == es.skip(done.len() as int)[0]);
                            assert(es.skip(done.len() as int)[0] == es[done.len() as int]);
                            assert(es.skip(done.len() as int).skip(1) =~= es.skip(
                                done.len() as int + 1,
                            ));
                        }
                    }
                    match entry_name(&e) {
                        Some(nm) => {
                            names.push(nm);
                        },
                        None => {
                            proof {
                                if let Some(es) = parsed {
                                    assert(entry_wf(e));
                                    assert(false);
                                }
                            }
                        },
                    }
                    proof {
                        let ghost prev = done;
                        done = done.push(entry_item(e));
                        if let Some(es) = parsed {
                            assert(done =~= es.take(done.len() as int));
                            assert(entry_names(done) =~= entry_names(prev).push(entry_item(e).0));
                            assert(string_views(names@) =~= entry_names(done));
                        }
                    }
                },
            }
        }
    }

    /// Produces the unpack plan for the given artifact bytes: every
    /// entry's destination path and content, its mode bits with the
    /// policy's permission mask applied (`mode & !mask`, high bits
    /// cleared unless permissions are preserved), and the modification
    /// time and ownership to restore where the policy preserves them.
    /// The I/O layer writes the plan to disk under the overwrite
    /// decision.
    pub fn unpack(&self, data: &Vec<u8>) -> (r: Result<Vec<ExtractedEntry>, TarballError>)
        ensures
            self.archive_file is None || self.output is None ==> (r matches Err(e) && e
                == TarballError::ConfigurationIncomplete),
            r is Ok ==> self.archive_file is Some && self.output is Some,
            r matches Err(e) ==> e == TarballError::ConfigurationIncomplete || e
                == TarballError::ArchiveReadFailure,
            r matches Err(e) && e == TarballError::ArchiveReadFailure ==> parse_archive(
                data@,
                self.ignore_zeros,
            ) is None,
            r matches Err(e) && e == TarballError::ConfigurationIncomplete ==> self.archive_file
                is None || self.output is None,
            self.archive_file is Some && self.output is Some ==> (xz_plain(data@) is None ==> (
            r matches Err(e) && e == TarballError::ArchiveReadFailure)),
            self.archive_file is Some && self.output is Some ==> (parse_archive(
                data@,
                self.ignore_zeros,
            ) matches Some(es) ==> (r matches Ok(plan) && plan@.len() == es.len() && forall|i: int|
                0 <= i < es.len() ==> extracted_matches(
                    #[trigger] plan@[i],
                    es[i],
                    self.mask,
                    self.preserve_permissions,
                    self.preserve_mtime,
                    self.preserve_ownerships,
                ))),
    {
        if self.archive_file.is_none() {
            return Err(TarballError::ConfigurationIncomplete);
        }
        if self.output.is_none() {
            return Err(TarballError::ConfigurationIncomplete);
        }
        let decoded = match xz_decode(data) {
            Ok(v) => v,
            Err(_) => {
                return Err(TarballError::ArchiveReadFailure);
            },
        };
        let ghost parsed = tar_parse(decoded@, self.ignore_zeros);
        let mut archive = archive_open(decoded.as_slice(), self.ignore_zeros);
        let mut it = match archive_entries(&mut archive) {
            Ok(it) => it,
            Err(_) => {
                return Err(TarballError::ArchiveReadFailure);
            },
        };
        let mut plan: Vec<ExtractedEntry> = Vec::new();
        let ghost mut done: Seq<(Seq<char>, Seq<u8>, u32, u64, u64, u64)> = Seq::empty();
        proof {
            if let Some(es) = parsed {
                assert(done =~= es.take(0));
            }
        }
        loop
            invariant
                self.archive_file is Some,
                self.output is Some,
                xz_plain(data@) == Some(decoded@),
                parsed == tar_parse(decoded@, self.ignore_zeros),
                parsed matches Some(es) ==> {
                    &&& 0 <= done.len() <= es.len()
                    &&& done == es.take(done.len() as int)
                    &&& entries_left(it) == Some(es.skip(done.len() as int))
                    &&& plan@.len() == done.len()
                    &&& forall|i: int|
                        0 <= i < done.len() ==> extracted_matches(
                            #[trigger] plan@[i],
                            done[i],
                            self.mask,
                            self.preserve_permissions,
                            self.preserve_mtime,
                            self.preserve_ownerships,
                        )
                },
            decreases entries_budget(it),
        {
            match entries_next(&mut it) {
                None => {
                    proof {
                        if let Some(es) = parsed {
                            assert(es.skip(done.len() as int).len() == 0);
                            assert(done =~= es);
                        }
                    }
                    return Ok(plan);
                },
                Some(Err(_)) => {
                    return Err(TarballError::ArchiveReadFailure);
                },
                Some(Ok(mut e)) => {
                    let ghost item = entry_item(e);
                    let ghost wf = entry_wf(e);
                    proof {
                        if let Some(es) = parsed {
                            assert(es.skip(done.len() as int).len() > 0);
                            assert(item == es.skip(done.len() as int)[0]);
                            assert(es.skip(done.len() as int)[0] == es[done.len() as int]);
                            assert(es.skip(done.len() as int).skip(1) =~= es.skip(
                                done.len() as int + 1,
                            ));
                        }
                    }
                    let name_opt = entry_name(&e);
                    // A numeric header field that does not parse counts
                    // as 0, matching the model.
                    let mode_stored = match entry_mode(&e) {
                        Some(m) => m,
                        None => 0,
                    };
                    let mtime_stored = match entry_mtime(&e) {
                        Some(m) => m,
                        None => 0,
                    };
                    let uid_stored = match entry_uid(&e) {
                        Some(m) => m,
                        None => 0,
                    };
                    let gid_stored = match entry_gid(&e) {
                        Some(m) => m,
                        None => 0,
                    };
                    let contents = match entry_data(&mut e) {
                        Ok(c) => c,
                        Err(_) => {
                            return Err(TarballError::ArchiveReadFailure);
                        },
                    };
                    let mode_base = if self.preserve_permissions {
                        mode_stored
                    } else {
                        mode_stored & 0o777
                    };
                    let mtime = if self.preserve_mtime {
                        Some(
                            if mtime_stored == 0 {
                                1u64
                            } else {
                                mtime_stored
                            },
                        )
                    } else {
                        None
                    };
                    let ownership = if self.preserve_ownerships {
                        Some((uid_stored, gid_stored))
                    } else {
                        None
                    };
                    match name_opt {
                        Some(nm) => {
                            plan.push(
                                ExtractedEntry {
                                    path: nm,
                                    contents,
                                    mode: mode_base & !self.mask,
                                    mtime,
                                    ownership,
                                },
                            );
                        },
                        None => {
                            proof {
                                if let Some(es) = parsed {
                                    assert(wf);
                                    assert(false);
                                }
                            }
                        },
                    }
                    proof {
                        done = done.push(item);
                        if let Some(es) = parsed {
                            assert(done =~= es.take(done.len() as int));
                        }
                    }
                },
            }
        }
    }

    /// Closes one decompression run's accounting: the listed files, the
    /// total of their re-measured on-disk sizes, and the elapsed time.
    /// An entry that could not be re-measured after unpacking must be
    /// reported by the I/O layer as an extraction failure, never as a
    /// silently zero size.
    pub fn decompress(&self, files: Vec<String>, sizes: &Vec<u64>, elapsed_millis: u64) -> (r:
        Result<DecompressionResult, TarballError>)
        requires
            files@.len() == sizes@.len(),
            sum64(sizes@) <= u64::MAX,
        ensures
            r is Ok <==> (self.archive_file is Some && self.output is Some),
            r matches Ok(res) ==> res.files@ == files@ && res.total_size == sum64(sizes@)
                && res.elapsed_time == elapsed_millis,
            r matches Err(e) ==> e == TarballError::ConfigurationIncomplete && (self.archive_file
                is None || self.output is None),
    {
        if self.archive_file.is_none() {
            return Err(TarballError::ConfigurationIncomplete);
        }
        if self.output.is_none() {
            return Err(TarballError::ConfigurationIncomplete);
        }
        let n = sizes.len();
        let mut total: u64 = 0;
        let mut i: usize = 0;
        while i < n
            invariant
                0 <= i <= n,
                n == sizes@.len(),
                sum64(sizes@) <= u64::MAX,
                total == sum64(sizes@.take(i as int)),
            decreases n - i,
        {
            proof {
                assert(sizes@.take(i as int + 1).drop_last() =~= sizes@.take(i as int));
                lemma_sum64_take_bound(sizes@, i as int + 1);
            }
            total = total + sizes[i];
            i += 1;
        }
        proof {
            assert(sizes@.take(n as int) =~= sizes@);
        }
        Ok(DecompressionResult { elapsed_time: elapsed_millis, files, total_size: total })
    }
}

} // verus!
