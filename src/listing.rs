//! Turning what a directory walk found into listing entries, and summing
//! usage for a status report.

use vstd::prelude::*;
use crate::protocol::{FileEntry, FileEntryView};
use crate::text::{owned, push_char};

verus! {

/// One item found by walking a directory, before it is reported.
#[derive(Debug, Clone, PartialEq, Eq)]
pub struct WalkedEntry {
    /// Path relative to the listed directory, with the platform's separators.
    pub rel_path: String,
    /// 0 for the listed directory itself, 1 for its children, and so on.
    pub depth: usize,
    pub is_dir: bool,
    pub size: u64,
    /// Modification time in seconds since the Unix epoch, when known.
    pub modified: Option<u64>,
}

/// A walked item as a mathematical value.
pub ghost struct WalkedView {
    pub rel_path: Seq<char>,
    pub depth: nat,
    pub is_dir: bool,
    pub size: u64,
    pub modified: Option<u64>,
}

impl View for WalkedEntry {
    type V = WalkedView;

    open spec fn view(&self) -> WalkedView {
        WalkedView {
            rel_path: self.rel_path@,
            depth: self.depth as nat,
            is_dir: self.is_dir,
            size: self.size,
            modified: self.modified,
        }
    }
}

/// `s` with every backslash turned into `/`.
pub open spec fn forward_slashes(s: Seq<char>) -> Seq<char> {
    s.map_values(|c: char| if c == '\\' { '/' } else { c })
}

/// The entry reported for a walked item: in a recursive listing the name is
/// the path below the listed directory with `/` throughout, in a flat one the
/// child's own name unchanged; the modification time is kept only in a long
/// listing.
pub open spec fn entry_of(w: WalkedView, recursive: bool, long: bool) -> FileEntryView {
    FileEntryView {
        name: if recursive {
            forward_slashes(w.rel_path)
        } else {
            w.rel_path
        },
        is_dir: w.is_dir,
        size: w.size,
        modified: if long { w.modified } else { None },
    }
}

/// The set of entries that a listing reports for the items of a walk: every
/// item but the listed directory itself.
pub open spec fn listing_set(walked: Seq<WalkedView>, recursive: bool, long: bool) -> Set<FileEntryView> {
    Set::new(|e: FileEntryView| exists|w: WalkedView| walked.contains(w) && w.depth > 0 && e == entry_of(w, recursive, long))
}

/// The entries a listing reports for the items of a walk, in walk order:
/// each item but the listed directory itself, once, mapped by `entry_of`.
pub open spec fn listing_seq(walked: Seq<WalkedView>, recursive: bool, long: bool) -> Seq<FileEntryView>
    decreases walked.len(),
{
    if walked.len() == 0 {
        Seq::empty()
    } else if walked.last().depth > 0 {
        listing_seq(walked.drop_last(), recursive, long).push(entry_of(walked.last(), recursive, long))
    } else {
        listing_seq(walked.drop_last(), recursive, long)
    }
}

/// Reported entries, as views, in order.
pub open spec fn entry_seq(es: Seq<FileEntry>) -> Seq<FileEntryView> {
    es.map_values(|e: FileEntry| e@)
}

/// A relative path with every backslash turned into `/`.
pub fn forward_slash_name(s: &str) -> (r: String)
    ensures
        r@ == forward_slashes(s@),
{
    let n = s.unicode_len();
    let mut out = String::new();
    let mut i: usize = 0;
    while i < n
        invariant
            n == s@.len(),
            i <= n,
            out@ == forward_slashes(s@.subrange(0, i as int)),
        decreases n - i,
    {
        let c = s.get_char(i);
        let d = if c == '\\' { '/' } else { c };
        assert(forward_slashes(s@.subrange(0, i + 1)) == forward_slashes(s@.subrange(0, i as int)).push(d));
        push_char(&mut out, d);
        i = i + 1;
    }
    assert(s@.subrange(0, n as int) == s@);
    out
}

/// The entry reported for one walked item.
pub fn entry_for(w: &WalkedEntry, recursive: bool, long: bool) -> (r: FileEntry)
    ensures
        r@ == entry_of(w@, recursive, long),
{
    FileEntry {
        name: if recursive {
            forward_slash_name(w.rel_path.as_str())
        } else {
            owned(w.rel_path.as_str())
        },
        is_dir: w.is_dir,
        size: w.size,
        modified: if long { w.modified } else { None },
    }
}

/// The entries of a listing, in the order the walk found the items; the
/// listed directory itself is left out.
pub fn build_listing(walked: &Vec<WalkedEntry>, recursive: bool, long: bool) -> (r: Vec<FileEntry>)
    ensures
        entry_seq(r@) == listing_seq(walked_views(walked@), recursive, long),
        r@.len() <= walked@.len(),
        entry_views(r@) == listing_set(walked_views(walked@), recursive, long),
        forall|i: int| 0 <= i < r@.len() ==> exists|j: int| 0 <= j < walked@.len()
            && walked@[j]@.depth > 0 && #[trigger] r@[i]@ == entry_of(walked@[j]@, recursive, long),
        forall|j: int| 0 <= j < walked@.len() && (#[trigger] walked@[j]).depth > 0
            ==> exists|i: int| 0 <= i < r@.len() && r@[i]@ == entry_of(walked@[j]@, recursive, long),
{
    let mut out: Vec<FileEntry> = Vec::new();
    let mut k: usize = 0;
    while k < walked.len()
        invariant
            k <= walked@.len(),
            out@.len() <= k,
            entry_seq(out@) == listing_seq(walked_views(walked@.subrange(0, k as int)), recursive, long),
            forall|i: int| 0 <= i < out@.len() ==> exists|j: int| 0 <= j < k
                && walked@[j]@.depth > 0 && #[trigger] out@[i]@ == entry_of(walked@[j]@, recursive, long),
            forall|j: int| 0 <= j < k && (#[trigger] walked@[j]).depth > 0
                ==> exists|i: int| 0 <= i < out@.len() && out@[i]@ == entry_of(walked@[j]@, recursive, long),
        decreases walked@.len() - k,
    {
        let ghost before = out@;
        let ghost upto = walked_views(walked@.subrange(0, k + 1));
        assert(upto.drop_last() =~= walked_views(walked@.subrange(0, k as int)));
        assert(upto.last() == walked@[k as int]@);
        if walked[k].depth > 0 {
            let e = entry_for(&walked[k], recursive, long);
            out.push(e);
            assert(out@[out@.len() - 1]@ == entry_of(walked@[k as int]@, recursive, long));
            assert(entry_seq(out@) =~= entry_seq(before).push(entry_of(walked@[k as int]@, recursive, long)));
        }
        assert forall|j: int| 0 <= j < k + 1 && (#[trigger] walked@[j]).depth > 0 implies exists|i: int|
            0 <= i < out@.len() && out@[i]@ == entry_of(walked@[j]@, recursive, long) by {
            if j < k {
                let i = choose|i: int| 0 <= i < before.len() && before[i]@ == entry_of(walked@[j]@, recursive, long);
                assert(out@[i] == before[i]);
            } else {
                assert(out@[out@.len() - 1]@ == entry_of(walked@[j]@, recursive, long));
            }
        }
        k = k + 1;
    }
    assert(walked@.subrange(0, walked@.len() as int) == walked@);
    proof {
        lemma_listing_is_listing_set(walked@, out@, recursive, long);
    }
    out
}

/// The set of reported entries, as views.
pub open spec fn entry_views(es: Seq<FileEntry>) -> Set<FileEntryView> {
    Set::new(|e: FileEntryView| exists|i: int| 0 <= i < es.len() && es[i]@ == e)
}

/// The items of a walk, as views.
pub open spec fn walked_views(ws: Seq<WalkedEntry>) -> Seq<WalkedView> {
    ws.map_values(|w: WalkedEntry| w@)
}

/// What `build_listing` reports, as a set, is `listing_set` of the walk.
pub proof fn lemma_listing_is_listing_set(walked: Seq<WalkedEntry>, r: Seq<FileEntry>, recursive: bool, long: bool)
    requires
        forall|i: int| 0 <= i < r.len() ==> exists|j: int| 0 <= j < walked.len()
            && walked[j]@.depth > 0 && #[trigger] r[i]@ == entry_of(walked[j]@, recursive, long),
        forall|j: int| 0 <= j < walked.len() && (#[trigger] walked[j]).depth > 0
            ==> exists|i: int| 0 <= i < r.len() && r[i]@ == entry_of(walked[j]@, recursive, long),
    ensures
        entry_views(r) == listing_set(walked_views(walked), recursive, long),
{
    let ws = walked_views(walked);
    assert forall|e: FileEntryView| entry_views(r).contains(e) implies listing_set(ws, recursive, long).contains(e) by {
        let i = choose|i: int| 0 <= i < r.len() && r[i]@ == e;
        let j = choose|j: int| 0 <= j < walked.len() && walked[j]@.depth > 0 && #[trigger] r[i]@ == entry_of(walked[j]@, recursive, long);
        assert(ws[j] == walked[j]@);
        assert(ws.contains(walked[j]@));
    }
    assert forall|e: FileEntryView| listing_set(ws, recursive, long).contains(e) implies entry_views(r).contains(e) by {
        let w = choose|w: WalkedView| ws.contains(w) && w.depth > 0 && e == entry_of(w, recursive, long);
        let j = choose|j: int| 0 <= j < ws.len() && ws[j] == w;
        assert(walked[j]@ == w);
        assert(walked[j].depth > 0);
    }
    assert(entry_views(r) =~= listing_set(ws, recursive, long));
}

/// Listing the same directory twice, where the walk may find its items in
/// another order, reports the same set of entries.
pub proof fn lemma_listing_order_free(a: Seq<WalkedView>, b: Seq<WalkedView>, recursive: bool, long: bool)
    requires
        a.to_set() == b.to_set(),
    ensures
        listing_set(a, recursive, long) == listing_set(b, recursive, long),
{
    assert forall|w: WalkedView| a.contains(w) <==> b.contains(w) by {
        assert(a.contains(w) <==> a.to_set().contains(w));
        assert(b.contains(w) <==> b.to_set().contains(w));
    }
    assert(listing_set(a, recursive, long) =~= listing_set(b, recursive, long));
}

/// Running totals of a status report: regular files and their bytes.
#[derive(Debug, Clone, Copy, PartialEq, Eq, Structural)]
pub struct UsageTally {
    pub total_size: u64,
    pub file_count: u64,
}

/// A tally would no longer fit in 64 bits.
#[derive(Debug, Clone, Copy, PartialEq, Eq, Structural)]
pub struct TallyOverflow;

impl UsageTally {
    /// Nothing counted yet.
    pub fn new() -> (r: UsageTally)
        ensures
            r.total_size == 0,
            r.file_count == 0,
    {
        UsageTally { total_size: 0, file_count: 0 }
    }

    /// Counts one walked item: a regular file adds one to the count and its
    /// length to the total; anything else changes nothing. On overflow the
    /// tally is left as it was.
    pub fn add(&mut self, is_file: bool, len: u64) -> (r: Result<(), TallyOverflow>)
        ensures
            !is_file ==> r is Ok && *final(self) == *old(self),
            is_file && (old(self).total_size + len > u64::MAX || old(self).file_count + 1
                > u64::MAX) ==> r is Err && *final(self) == *old(self),
            is_file && old(self).total_size + len <= u64::MAX && old(self).file_count + 1
                <= u64::MAX ==> r is Ok && final(self).total_size == old(self).total_size + len
                && final(self).file_count == old(self).file_count + 1,
    {
        if !is_file {
            return Ok(());
        }
        if self.total_size > u64::MAX - len || self.file_count == u64::MAX {
            return Err(TallyOverflow);
        }
        self.total_size = self.total_size + len;
        self.file_count = self.file_count + 1;
        Ok(())
    }
}

} // verus!
