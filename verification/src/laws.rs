//! The laws that tie the two pipelines together, stated over the same
//! spec functions that the pipelines' own contracts use.

use crate::codec::{xz_bytes, xz_plain};
use crate::container::{entries_data_len, entry_names, tar_bytes, tar_parse};
use crate::reader::parse_archive;
use vstd::prelude::*;

verus! {

/// Round trip: an artifact carrying a container built from a set of
/// entries, decoded and parsed again, yields exactly those entries —
/// names, contents and modes — whatever zero-block tolerance the reader
/// is configured with. The premises are what `compress` ensures of its
/// artifact; the conclusion is the premise under which `unpack` and
/// `entries` ensure that they reproduce the entries.
pub proof fn lemma_round_trip(
    entries: Seq<(Seq<char>, Seq<u8>, u32, u64, u64, u64)>,
    level: u32,
    ignore_zeros: bool,
    artifact: Seq<u8>,
)
    requires
        artifact == xz_bytes(tar_bytes(entries), level),
        xz_plain(artifact) == Some(tar_bytes(entries)),
        tar_parse(tar_bytes(entries), ignore_zeros) == Some(entries),
    ensures
        parse_archive(artifact, ignore_zeros) == Some(entries),
{
}

/// Size accounting: the content of a container holding one single entry
/// of `n` bytes is exactly `n` bytes, so `compress`, which ensures that
/// the reported container size is at least the total content plus the
/// trailer, reports at least `n` for it; and the total that
/// `decompress` reports for the one extracted file of `n` bytes is
/// exactly `n`.
pub proof fn lemma_single_entry_content_size(item: (Seq<char>, Seq<u8>, u32, u64, u64, u64))
    requires
        item.1.len() <= u64::MAX,
    ensures
        entries_data_len(seq![item]) == item.1.len(),
        crate::reader::sum64(seq![item.1.len() as u64]) == item.1.len(),
{
    let s = seq![item];
    assert(s.skip(1) =~= Seq::<(Seq<char>, Seq<u8>, u32, u64, u64, u64)>::empty());
    assert(entries_data_len(s.skip(1)) == 0);
    assert(entries_data_len(s) == s[0].1.len() + entries_data_len(s.skip(1)));
    let t = seq![item.1.len() as u64];
    assert(t.drop_last() =~= Seq::<u64>::empty());
    assert(crate::reader::sum64(t.drop_last()) == 0);
    assert(crate::reader::sum64(t) == crate::reader::sum64(t.drop_last()) + t.last());
}

/// Listing matches extraction: the names the listing operation yields
/// for an archive are, one for one and in order, the paths of the
/// entries that a full extraction of the same archive produces.
pub proof fn lemma_listing_matches_extraction(
    names: Seq<Seq<char>>,
    items: Seq<(Seq<char>, Seq<u8>, u32, u64, u64, u64)>,
)
    requires
        names == entry_names(items),
    ensures
        names.len() == items.len(),
        forall|i: int| 0 <= i < items.len() ==> names[i] == (#[trigger] items[i]).0,
{
}

} // verus!
