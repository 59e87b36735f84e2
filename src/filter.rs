//! Choosing the remote lists that are synchronised, and flattening their
//! entries into one canonical sequence with one entry per media id.
//!
//! Policy: a list is in scope when its name, lowercased, contains
//! `completed` or `watching`. Entries are taken in list order, then entry
//! order; when a media id recurs, the last entry seen replaces the earlier
//! one at the earlier one's position.

use vstd::prelude::*;
use crate::anilist_models::{Entry, MediaList};

verus! {

/// The lowercase form of a text, as std's Unicode mapping gives it.
pub uninterp spec fn lower_of(s: Seq<char>) -> Seq<char>;

/// Relies on std's `str::to_lowercase`, whose result depends on the
/// characters alone.
#[verifier::external_body]
fn lowercase(s: &str) -> (r: String)
    ensures
        r@ == lower_of(s@),
{
    s.to_lowercase()
}

/// `needle` occurs in `hay` starting at `i`.
pub open spec fn occurs_at(hay: Seq<char>, needle: Seq<char>, i: int) -> bool {
    0 <= i && i + needle.len() <= hay.len() && hay.subrange(i, i + needle.len()) == needle
}

pub open spec fn contains_text(hay: Seq<char>, needle: Seq<char>) -> bool {
    exists|i: int| occurs_at(hay, needle, i)
}

/// Whether an already lowercased list name is in scope.
pub open spec fn in_scope_name(lowered: Seq<char>) -> bool {
    contains_text(lowered, "completed"@) || contains_text(lowered, "watching"@)
}

pub open spec fn list_in_scope(list: MediaList) -> bool {
    in_scope_name(lower_of(list.name@))
}

/// Whether `needle` occurs in `hay`.
pub fn contains_str(hay: &str, needle: &str) -> (r: bool)
    ensures
        r == contains_text(hay@, needle@),
{
    let n = hay.unicode_len();
    let m = needle.unicode_len();
    if m > n {
        return false;
    }
    let mut i: usize = 0;
    while i <= n - m
        invariant
            n == hay@.len(),
            m == needle@.len(),
            m <= n,
            forall|k: int| 0 <= k < i ==> !occurs_at(hay@, needle@, k),
        decreases n - m + 1 - i,
    {
        let mut j: usize = 0;
        while j < m && hay.get_char(i + j) == needle.get_char(j)
            invariant
                n == hay@.len(),
                m == needle@.len(),
                i + m <= n,
                j <= m,
                forall|t: int| 0 <= t < j ==> hay@[i + t] == needle@[t],
            decreases m - j,
        {
            j = j + 1;
        }
        if j == m {
            proof {
                assert(hay@.subrange(i as int, i + m) =~= needle@);
                assert(occurs_at(hay@, needle@, i as int));
            }
            return true;
        }
        proof {
            assert(hay@.subrange(i as int, i + m)[j as int] != needle@[j as int]);
        }
        i = i + 1;
    }
    false
}

/// Whether an already lowercased list name is in scope.
pub fn in_scope_folded(lowered: &String) -> (r: bool)
    ensures
        r == in_scope_name(lowered@),
{
    let completed = "completed";
    let watching = "watching";
    contains_str(lowered.as_str(), completed) || contains_str(lowered.as_str(), watching)
}

/// Whether the list called `name` is synchronised.
pub fn is_in_scope(name: &String) -> (r: bool)
    ensures
        r == in_scope_name(lower_of(name@)),
{
    let lowered = lowercase(name.as_str());
    in_scope_folded(&lowered)
}

/// The entries of the in-scope lists, in list order, then entry order.
pub open spec fn in_scope_entries(lists: Seq<MediaList>) -> Seq<Entry>
    decreases lists.len(),
{
    if lists.len() == 0 {
        Seq::empty()
    } else {
        in_scope_entries(lists.drop_last()) + if list_in_scope(lists.last()) {
            lists.last().entries@
        } else {
            Seq::empty()
        }
    }
}

/// Index of the first entry at or after `i` whose media id is `id`, or the length.
pub open spec fn position_from(d: Seq<Entry>, id: i32, i: int) -> int
    decreases d.len() - i,
{
    if i < 0 || i >= d.len() {
        d.len() as int
    } else if d[i].media.id == id {
        i
    } else {
        position_from(d, id, i + 1)
    }
}

/// `e` replaces the entry with its media id, or is appended when there is none.
pub open spec fn merge_entry(d: Seq<Entry>, e: Entry) -> Seq<Entry> {
    let p = position_from(d, e.media.id, 0);
    if p < d.len() {
        d.update(p, e)
    } else {
        d.push(e)
    }
}

/// One entry per media id: the last one seen, at the first one's position.
pub open spec fn dedup_last(s: Seq<Entry>) -> Seq<Entry>
    decreases s.len(),
{
    if s.len() == 0 {
        s
    } else {
        merge_entry(dedup_last(s.drop_last()), s.last())
    }
}

pub open spec fn canonical_of(lists: Seq<MediaList>) -> Seq<Entry> {
    dedup_last(in_scope_entries(lists))
}

pub open spec fn unique_ids(s: Seq<Entry>) -> bool {
    forall|i: int, j: int| 0 <= i < j < s.len() ==> s[i].media.id != s[j].media.id
}

pub proof fn lemma_position_from(d: Seq<Entry>, id: i32, i: int)
    requires
        0 <= i <= d.len(),
    ensures
        i <= position_from(d, id, i) <= d.len(),
        position_from(d, id, i) < d.len() ==> d[position_from(d, id, i)].media.id == id,
        forall|k: int| i <= k < position_from(d, id, i) ==> d[k].media.id != id,
    decreases d.len() - i,
{
    if i < d.len() && d[i].media.id != id {
        lemma_position_from(d, id, i + 1);
    }
}

/// The canonical sequence has each media id at most once.
pub proof fn lemma_dedup_unique(s: Seq<Entry>)
    ensures
        unique_ids(dedup_last(s)),
    decreases s.len(),
{
    if s.len() > 0 {
        let d = dedup_last(s.drop_last());
        lemma_dedup_unique(s.drop_last());
        lemma_position_from(d, s.last().media.id, 0);
    }
}

/// Media ids of a sequence of entries.
pub open spec fn media_ids(s: Seq<Entry>) -> Seq<i32> {
    s.map_values(|e: Entry| e.media.id)
}

/// Deduplication keeps every media id that occurs, and no other.
pub proof fn lemma_dedup_ids(s: Seq<Entry>)
    ensures
        media_ids(dedup_last(s)).to_set() == media_ids(s).to_set(),
    decreases s.len(),
{
    if s.len() > 0 {
        let rest = s.drop_last();
        let e = s.last();
        let d = dedup_last(rest);
        lemma_dedup_ids(rest);
        lemma_position_from(d, e.media.id, 0);
        let p = position_from(d, e.media.id, 0);
        assert(media_ids(s) =~= media_ids(rest).push(e.media.id));
        media_ids(rest).lemma_push_to_set_commute(e.media.id);
        media_ids(d).lemma_push_to_set_commute(e.media.id);
        if p < d.len() {
            assert(media_ids(d.update(p, e)) =~= media_ids(d));
            assert(media_ids(d)[p] == e.media.id);
            assert(media_ids(d).to_set().contains(e.media.id));
            assert(media_ids(dedup_last(s)).to_set() =~= media_ids(s).to_set());
        } else {
            assert(media_ids(d.push(e)) =~= media_ids(d).push(e.media.id));
            assert(media_ids(dedup_last(s)).to_set() =~= media_ids(s).to_set());
        }
    }
}

/// Merges `e` into `out` as `merge_entry` does.
fn merge_into(out: &mut Vec<Entry>, e: &Entry)
    ensures
        final(out)@ == merge_entry(old(out)@, *e),
{
    let mut p: usize = 0;
    while p < out.len() && out[p].media.id != e.media.id
        invariant
            p <= out@.len(),
            out@ == old(out)@,
            position_from(out@, e.media.id, 0) == position_from(out@, e.media.id, p as int),
        decreases out@.len() - p,
    {
        p = p + 1;
    }
    if p < out.len() {
        out[p] = e.duplicate();
    } else {
        out.push(e.duplicate());
    }
}

/// The canonical entries of a remote snapshot: the entries of its in-scope
/// lists, one per media id (see the module's policy).
pub fn canonical_entries(lists: &Vec<MediaList>) -> (r: Vec<Entry>)
    ensures
        r@ == canonical_of(lists@),
        unique_ids(r@),
        media_ids(r@).to_set() == media_ids(in_scope_entries(lists@)).to_set(),
{
    let mut out: Vec<Entry> = Vec::new();
    let mut i: usize = 0;
    while i < lists.len()
        invariant
            i <= lists@.len(),
            out@ == dedup_last(in_scope_entries(lists@.subrange(0, i as int))),
        decreases lists@.len() - i,
    {
        let list = &lists[i];
        let ghost before = in_scope_entries(lists@.subrange(0, i as int));
        proof {
            assert(lists@.subrange(0, i + 1).drop_last() =~= lists@.subrange(0, i as int));
        }
        if is_in_scope(&list.name) {
            let mut j: usize = 0;
            proof {
                assert(before + list.entries@.subrange(0, 0) =~= before);
            }
            while j < list.entries.len()
                invariant
                    j <= list.entries@.len(),
                    out@ == dedup_last(before + list.entries@.subrange(0, j as int)),
                decreases list.entries@.len() - j,
            {
                proof {
                    assert((before + list.entries@.subrange(0, j + 1)).drop_last()
                        =~= before + list.entries@.subrange(0, j as int));
                }
                merge_into(&mut out, &list.entries[j]);
                j = j + 1;
            }
            proof {
                assert(list.entries@.subrange(0, j as int) =~= list.entries@);
            }
        } else {
            proof {
                assert(before + Seq::<Entry>::empty() =~= before);
            }
        }
        i = i + 1;
    }
    proof {
        assert(lists@.subrange(0, lists@.len() as int) =~= lists@);
        lemma_dedup_unique(in_scope_entries(lists@));
        lemma_dedup_ids(in_scope_entries(lists@));
    }
    out
}

} // verus!
