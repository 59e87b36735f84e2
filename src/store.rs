//! What applying a change set does to the store: every upsert inserts or
//! replaces the record with its key, every deletion removes the entry with
//! its key.

use vstd::prelude::*;
use crate::differ::ChangeSetView;
use crate::models::{AnimeView, ListItem, UserView};

verus! {

/// The stored records, by key.
pub struct StoreView {
    pub users: Map<i32, UserView>,
    pub media: Map<i32, AnimeView>,
    pub entries: Map<(i32, i32), ListItem>,
}

/// `m` after inserting or replacing each of `s` under its key, in order.
pub open spec fn upsert_all<K, V>(m: Map<K, V>, s: Seq<V>, key: spec_fn(V) -> K) -> Map<K, V>
    decreases s.len(),
{
    if s.len() == 0 {
        m
    } else {
        upsert_all(m, s.drop_last(), key).insert(key(s.last()), s.last())
    }
}

pub open spec fn anime_key(a: AnimeView) -> i32 {
    a.anime_id
}

pub open spec fn entry_key(li: ListItem) -> (i32, i32) {
    li.key()
}

/// The store after `cs` was applied to `store`: deletions, then upserts.
pub open spec fn apply_changes(store: StoreView, cs: ChangeSetView) -> StoreView {
    StoreView {
        users: match cs.user_upsert {
            Some(u) => store.users.insert(u.user_id, u),
            None => store.users,
        },
        media: upsert_all(store.media, cs.media_upserts, |a: AnimeView| anime_key(a)),
        entries: upsert_all(
            store.entries.remove_keys(cs.entry_deletions.to_set()),
            cs.entry_upserts,
            |li: ListItem| entry_key(li),
        ),
    }
}

/// Upserting a sequence is overlaying the map it makes on its own.
pub proof fn lemma_upsert_all_overlay<K, V>(m: Map<K, V>, s: Seq<V>, key: spec_fn(V) -> K)
    ensures
        upsert_all(m, s, key) == m.union_prefer_right(upsert_all(Map::empty(), s, key)),
        upsert_all(Map::<K, V>::empty(), s, key).dom() == s.map_values(key).to_set(),
    decreases s.len(),
{
    if s.len() > 0 {
        lemma_upsert_all_overlay(m, s.drop_last(), key);
        let inner = upsert_all(Map::<K, V>::empty(), s.drop_last(), key);
        assert(upsert_all(m, s, key) =~= m.union_prefer_right(upsert_all(Map::empty(), s, key)));
        assert(s.drop_last().map_values(key) =~= s.map_values(key).drop_last());
        assert forall|k: K| #[trigger] s.map_values(key).contains(k)
            implies s.drop_last().map_values(key).contains(k) || k == key(s.last()) by {
            let i = choose|i: int| 0 <= i < s.len() && s.map_values(key)[i] == k;
            if i < s.len() - 1 {
                assert(s.drop_last().map_values(key)[i] == k);
            }
        }
        assert forall|k: K| #[trigger] s.drop_last().map_values(key).contains(k)
            implies s.map_values(key).contains(k) by {
            let i = choose|i: int| 0 <= i < s.len() - 1 && s.drop_last().map_values(key)[i] == k;
            assert(s.map_values(key)[i] == k);
        }
        assert(s.map_values(key)[s.len() - 1] == key(s.last()));
        assert(upsert_all(Map::<K, V>::empty(), s, key).dom() =~= s.map_values(key).to_set());
    }
}

/// Upserting the same sequence twice leaves the map as upserting it once.
pub proof fn lemma_upsert_all_twice<K, V>(m: Map<K, V>, s: Seq<V>, key: spec_fn(V) -> K)
    ensures
        upsert_all(upsert_all(m, s, key), s, key) == upsert_all(m, s, key),
{
    lemma_upsert_all_overlay(m, s, key);
    lemma_upsert_all_overlay(upsert_all(m, s, key), s, key);
    let i = upsert_all(Map::<K, V>::empty(), s, key);
    assert(m.union_prefer_right(i).union_prefer_right(i) =~= m.union_prefer_right(i));
}

/// Applying the same change set a second time leaves the store as the first
/// application left it, when no key is both written and removed.
pub proof fn lemma_apply_idempotent(store: StoreView, cs: ChangeSetView)
    requires
        cs.wf(),
    ensures
        apply_changes(apply_changes(store, cs), cs) == apply_changes(store, cs),
{
    let once = apply_changes(store, cs);
    let twice = apply_changes(once, cs);
    let dels = cs.entry_deletions.to_set();
    let ekey = |li: ListItem| entry_key(li);
    let akey = |a: AnimeView| anime_key(a);
    lemma_upsert_all_twice(store.media, cs.media_upserts, akey);
    let base = store.entries.remove_keys(dels);
    lemma_upsert_all_overlay(base, cs.entry_upserts, ekey);
    let written = upsert_all(Map::<(i32, i32), ListItem>::empty(), cs.entry_upserts, ekey);
    assert forall|k: (i32, i32)| #[trigger] written.dom().contains(k) implies !dels.contains(k) by {
        assert(cs.entry_upserts.map_values(ekey).contains(k));
        let j = choose|j: int| 0 <= j < cs.entry_upserts.len() && cs.entry_upserts.map_values(ekey)[j] == k;
        if dels.contains(k) {
            let i = choose|i: int| 0 <= i < cs.entry_deletions.len() && cs.entry_deletions[i] == k;
            assert(cs.entry_deletions[i] != cs.entry_upserts[j].key());
        }
    }
    let after = base.union_prefer_right(written);
    lemma_upsert_all_overlay(after.remove_keys(dels), cs.entry_upserts, ekey);
    assert(after.remove_keys(dels).union_prefer_right(written) =~= after);
    match cs.user_upsert {
        Some(u) => {
            assert(once.users.insert(u.user_id, u) =~= once.users);
        },
        None => {},
    }
    assert(twice.entries =~= once.entries);
    assert(twice.users =~= once.users);
}

} // verus!
