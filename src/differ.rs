//! Reconciliation of the stored snapshot of one user with the canonical
//! remote entries: which records to write and which entries to remove.

use vstd::prelude::*;
use crate::anilist_models::{copy_opt_string, Entry};
use crate::anilist_models;
use crate::date::{construct_date, normalized, InvalidDateError};
use crate::models::{opt_view, Anime, AnimeView, ListItem, User, UserView};

verus! {

/// What is stored for one user: the user record (absent before the first
/// sync), the user's list entries, and the media records they refer to.
#[derive(Clone, Debug)]
pub struct LocalSnapshot {
    pub user_id: i32,
    pub user: Option<User>,
    pub entries: Vec<ListItem>,
    pub media: Vec<Anime>,
}

/// The writes that bring the store in line with the remote lists.
#[derive(Clone, Debug)]
pub struct ChangeSet {
    pub user_upsert: Option<User>,
    pub media_upserts: Vec<Anime>,
    pub entry_upserts: Vec<ListItem>,
    pub entry_deletions: Vec<(i32, i32)>,
}

/// A change set as values.
pub struct ChangeSetView {
    pub user_upsert: Option<UserView>,
    pub media_upserts: Seq<AnimeView>,
    pub entry_upserts: Seq<ListItem>,
    pub entry_deletions: Seq<(i32, i32)>,
}

impl View for ChangeSet {
    type V = ChangeSetView;

    open spec fn view(&self) -> ChangeSetView {
        ChangeSetView {
            user_upsert: match self.user_upsert {
                Some(u) => Some(u@),
                None => None,
            },
            media_upserts: self.media_upserts@.map_values(|a: Anime| a@),
            entry_upserts: self.entry_upserts@,
            entry_deletions: self.entry_deletions@,
        }
    }
}

impl ChangeSetView {
    /// No key is both written and removed.
    pub open spec fn wf(&self) -> bool {
        forall|i: int, j: int|
            0 <= i < self.entry_deletions.len() && 0 <= j < self.entry_upserts.len()
                ==> self.entry_deletions[i] != self.entry_upserts[j].key()
    }
}

/// Both dates of an entry collapse without error.
pub open spec fn dates_valid(e: Entry) -> bool {
    normalized(e.started_at) is Ok && normalized(e.completed_at) is Ok
}

pub open spec fn all_dates_valid(s: Seq<Entry>) -> bool {
    forall|i: int| 0 <= i < s.len() ==> dates_valid(s[i])
}

/// `err` reports the parts of `d`.
pub open spec fn reports(err: InvalidDateError, d: anilist_models::Date) -> bool {
    d.year == Some(err.year) && d.month == Some(err.month) && d.day == Some(err.day)
}

/// `err` is the error of the first entry of `s` with an impossible date:
/// its start date when that one is impossible, else its completion date.
pub open spec fn first_date_error(s: Seq<Entry>, err: InvalidDateError) -> bool {
    exists|i: int|
        0 <= i < s.len() && (forall|k: int| 0 <= k < i ==> dates_valid(#[trigger] s[k])) && !dates_valid(
            s[i],
        ) && if normalized(s[i].started_at) is Err {
            reports(err, s[i].started_at)
        } else {
            reports(err, s[i].completed_at)
        }
}

/// The stored entry for a canonical entry of user `uid`.
pub open spec fn entry_record(uid: i32, e: Entry) -> ListItem {
    ListItem {
        user_id: uid,
        anime_id: e.media.id,
        user_title: e.media.title.user_preferred,
        start_day: normalized(e.started_at)->Ok_0,
        end_day: normalized(e.completed_at)->Ok_0,
        score: e.score_raw,
    }
}

/// Index of the first media record with id `id` at or after `i`, or the length.
pub open spec fn anime_position(m: Seq<Anime>, id: i32, i: int) -> int
    decreases m.len() - i,
{
    if i < 0 || i >= m.len() {
        m.len() as int
    } else if m[i].anime_id == id {
        i
    } else {
        anime_position(m, id, i + 1)
    }
}

/// The stored media record with id `id`, if any.
pub open spec fn find_anime(m: Seq<Anime>, id: i32) -> Option<Anime> {
    let p = anime_position(m, id, 0);
    if p < m.len() {
        Some(m[p])
    } else {
        None
    }
}

/// The media record written for a canonical entry: the remote fields, and
/// the cached cover fields of the stored record (empty when there is none).
pub open spec fn media_record(e: Entry, prior: Option<Anime>) -> AnimeView {
    AnimeView {
        anime_id: e.media.id,
        description: e.media.description@,
        cover_s3: match prior {
            Some(p) => p.cover_s3@,
            None => Seq::empty(),
        },
        cover_anilist: match prior {
            Some(p) => p.cover_anilist@,
            None => Seq::empty(),
        },
        average: e.media.average_score,
        native: opt_view(e.media.title.native),
        romaji: opt_view(e.media.title.romaji),
        english: opt_view(e.media.title.english),
    }
}

/// The user record written for a fetched remote user: its id and name, and
/// the cached avatar fields of the stored record (empty when there is none).
pub open spec fn user_record(u: anilist_models::User, prior: Option<User>) -> UserView {
    UserView {
        user_id: u.id,
        name: u.name@,
        avatar_s3: match prior {
            Some(p) => p.avatar_s3@,
            None => Seq::empty(),
        },
        avatar_anilist: match prior {
            Some(p) => p.avatar_anilist@,
            None => Seq::empty(),
        },
    }
}

/// Keys of the stored entries.
pub open spec fn local_keys(entries: Seq<ListItem>) -> Seq<(i32, i32)> {
    entries.map_values(|li: ListItem| li.key())
}

/// Keys that the canonical entries of user `uid` will have.
pub open spec fn target_keys(uid: i32, canonical: Seq<Entry>) -> Seq<(i32, i32)> {
    canonical.map_values(|e: Entry| (uid, e.media.id))
}

/// Holds of the keys that are not in `target`.
pub open spec fn outside(target: Seq<(i32, i32)>) -> spec_fn((i32, i32)) -> bool {
    |k: (i32, i32)| !target.contains(k)
}

/// The keys among `keys` that are not in `target`, in order.
pub open spec fn deletions_of(keys: Seq<(i32, i32)>, target: Seq<(i32, i32)>) -> Seq<(i32, i32)> {
    keys.filter(outside(target))
}

/// The change set that reconciles `local` with `canonical`, `user` being the
/// remote user fetched in this sync, if any.
pub open spec fn expected_changes(
    local: LocalSnapshot,
    user: Option<anilist_models::User>,
    canonical: Seq<Entry>,
) -> ChangeSetView {
    ChangeSetView {
        user_upsert: match user {
            Some(u) => Some(user_record(u, local.user)),
            None => None,
        },
        media_upserts: canonical.map_values(|e: Entry| media_record(e, find_anime(local.media@, e.media.id))),
        entry_upserts: canonical.map_values(|e: Entry| entry_record(local.user_id, e)),
        entry_deletions: deletions_of(local_keys(local.entries@), target_keys(local.user_id, canonical)),
    }
}

/// The stored media record with id `id`, if any.
fn find_media(media: &Vec<Anime>, id: i32) -> (r: Option<usize>)
    ensures
        r is None <==> find_anime(media@, id) is None,
        r matches Some(p) ==> p < media@.len() && find_anime(media@, id) == Some(media@[p as int]),
{
    let mut p: usize = 0;
    while p < media.len() && media[p].anime_id != id
        invariant
            p <= media@.len(),
            anime_position(media@, id, 0) == anime_position(media@, id, p as int),
        decreases media@.len() - p,
    {
        p = p + 1;
    }
    if p < media.len() {
        Some(p)
    } else {
        None
    }
}

/// Builds the media record for `e` (see `media_record`).
fn build_media(e: &Entry, media: &Vec<Anime>) -> (r: Anime)
    ensures
        r@ == media_record(*e, find_anime(media@, e.media.id)),
{
    let (cover_s3, cover_anilist) = match find_media(media, e.media.id) {
        Some(p) => (media[p].cover_s3.clone(), media[p].cover_anilist.clone()),
        None => (String::new(), String::new()),
    };
    Anime {
        anime_id: e.media.id,
        description: e.media.description.clone(),
        cover_s3,
        cover_anilist,
        average: e.media.average_score,
        native: copy_opt_string(&e.media.title.native),
        romaji: copy_opt_string(&e.media.title.romaji),
        english: copy_opt_string(&e.media.title.english),
    }
}

/// Builds the user record for a fetched remote user (see `user_record`).
pub fn build_user(u: &anilist_models::User, prior: &Option<User>) -> (r: User)
    ensures
        r@ == user_record(*u, *prior),
{
    let (avatar_s3, avatar_anilist) = match prior {
        Some(p) => (p.avatar_s3.clone(), p.avatar_anilist.clone()),
        None => (String::new(), String::new()),
    };
    User { user_id: u.id, name: u.name.clone(), avatar_s3, avatar_anilist }
}

/// Whether user `uid` has a canonical entry for `anime_id`.
fn is_target(uid: i32, canonical: &Vec<Entry>, key: (i32, i32)) -> (r: bool)
    ensures
        r == target_keys(uid, canonical@).contains(key),
{
    let ghost target = target_keys(uid, canonical@);
    let mut j: usize = 0;
    while j < canonical.len()
        invariant
            j <= canonical@.len(),
            target == target_keys(uid, canonical@),
            forall|t: int| 0 <= t < j ==> target[t] != key,
        decreases canonical@.len() - j,
    {
        if key.0 == uid && canonical[j].media.id == key.1 {
            proof {
                assert(target[j as int] == key);
            }
            return true;
        }
        j = j + 1;
    }
    false
}

/// Computes the change set that reconciles the stored snapshot with the
/// canonical remote entries: one entry and one media record per canonical
/// entry, the removal of every stored entry whose key is not among them, and
/// the user record when a remote user was fetched. Fails when a date of an
/// entry names no existing day.
pub fn diff(local: &LocalSnapshot, user: &Option<anilist_models::User>, canonical: &Vec<Entry>)
    -> (r: Result<ChangeSet, InvalidDateError>)
    ensures
        r is Ok <==> all_dates_valid(canonical@),
        r matches Ok(cs) ==> cs@ == expected_changes(*local, *user, canonical@) && cs@.wf(),
        r matches Err(err) ==> first_date_error(canonical@, err),
{
    proof {
        lemma_keys_reconciled(*local, *user, canonical@);
    }
    let uid = local.user_id;
    let mut media_upserts: Vec<Anime> = Vec::new();
    let mut entry_upserts: Vec<ListItem> = Vec::new();
    let mut i: usize = 0;
    while i < canonical.len()
        invariant
            i <= canonical@.len(),
            uid == local.user_id,
            forall|k: int| 0 <= k < i ==> dates_valid(#[trigger] canonical@[k]),
            entry_upserts@ == canonical@.subrange(0, i as int).map_values(
                |e: Entry| entry_record(uid, e)),
            media_upserts@.map_values(|a: Anime| a@) == canonical@.subrange(0, i as int).map_values(
                |e: Entry| media_record(e, find_anime(local.media@, e.media.id))),
        decreases canonical@.len() - i,
    {
        let e = &canonical[i];
        let start = match construct_date(&e.started_at) {
            Ok(d) => d,
            Err(err) => {
                proof {
                    assert(first_date_error(canonical@, err) && !dates_valid(canonical@[i as int]));
                }
                return Err(err);
            },
        };
        let end = match construct_date(&e.completed_at) {
            Ok(d) => d,
            Err(err) => {
                proof {
                    assert(first_date_error(canonical@, err) && !dates_valid(canonical@[i as int]));
                }
                return Err(err);
            },
        };
        let item = ListItem {
            user_id: uid,
            anime_id: e.media.id,
            user_title: copy_opt_string(&e.media.title.user_preferred),
            start_day: start,
            end_day: end,
            score: e.score_raw,
        };
        let anime = build_media(e, &local.media);
        let ghost old_media = media_upserts@;
        entry_upserts.push(item);
        media_upserts.push(anime);
        proof {
            assert(canonical@.subrange(0, i + 1).map_values(|e: Entry| entry_record(uid, e))
                =~= canonical@.subrange(0, i as int).map_values(|e: Entry| entry_record(uid, e))
                .push(entry_record(uid, canonical@[i as int])));
            assert(media_upserts@.map_values(|a: Anime| a@)
                =~= old_media.map_values(|a: Anime| a@).push(anime@));
            assert(canonical@.subrange(0, i + 1).map_values(
                |e: Entry| media_record(e, find_anime(local.media@, e.media.id)))
                =~= canonical@.subrange(0, i as int).map_values(
                |e: Entry| media_record(e, find_anime(local.media@, e.media.id)))
                .push(media_record(canonical@[i as int],
                    find_anime(local.media@, canonical@[i as int].media.id))));
        }
        i = i + 1;
    }
    proof {
        assert(canonical@.subrange(0, canonical@.len() as int) =~= canonical@);
    }

    let ghost keys = local_keys(local.entries@);
    let ghost target = target_keys(uid, canonical@);
    let mut entry_deletions: Vec<(i32, i32)> = Vec::new();
    let mut k: usize = 0;
    while k < local.entries.len()
        invariant
            k <= local.entries@.len(),
            uid == local.user_id,
            keys == local_keys(local.entries@),
            target == target_keys(uid, canonical@),
            entry_deletions@ == deletions_of(keys.subrange(0, k as int), target),
        decreases local.entries@.len() - k,
    {
        let key = (local.entries[k].user_id, local.entries[k].anime_id);
        proof {
            reveal(Seq::filter);
            assert(keys.subrange(0, k + 1).drop_last() =~= keys.subrange(0, k as int));
            assert(keys[k as int] == key);
        }
        if !is_target(uid, canonical, key) {
            entry_deletions.push(key);
        }
        k = k + 1;
    }
    proof {
        assert(keys.subrange(0, keys.len() as int) =~= keys);
    }

    let user_upsert = match user {
        Some(u) => Some(build_user(u, &local.user)),
        None => None,
    };
    Ok(ChangeSet { user_upsert, media_upserts, entry_upserts, entry_deletions })
}

/// The removed keys are exactly the stored keys that are not among the
/// canonical ones, the written keys are exactly the canonical ones, and no
/// key is both written and removed.
pub proof fn lemma_keys_reconciled(
    local: LocalSnapshot,
    user: Option<anilist_models::User>,
    canonical: Seq<Entry>,
)
    ensures
        expected_changes(local, user, canonical).entry_deletions.to_set()
            == local_keys(local.entries@).to_set().difference(
            target_keys(local.user_id, canonical).to_set()),
        expected_changes(local, user, canonical).entry_upserts.map_values(|li: ListItem| li.key())
            == target_keys(local.user_id, canonical),
        expected_changes(local, user, canonical).wf(),
{
    let cs = expected_changes(local, user, canonical);
    let keys = local_keys(local.entries@);
    let target = target_keys(local.user_id, canonical);
    let dels = deletions_of(keys, target);
    keys.filter_lemma(outside(target));
    assert forall|k: (i32, i32)| #[trigger] dels.contains(k) implies keys.contains(k)
        && !target.contains(k) by {
        keys.lemma_filter_contains_rev(outside(target), k);
        let i = choose|i: int| 0 <= i < dels.len() && dels[i] == k;
        assert(outside(target)(dels[i]));
    }
    assert forall|k: (i32, i32)| keys.contains(k) && !target.contains(k) implies #[trigger] dels.contains(k) by {
        let i = choose|i: int| 0 <= i < keys.len() && keys[i] == k;
        assert(outside(target)(keys[i]));
    }
    assert(dels.to_set() =~= keys.to_set().difference(target.to_set()));
    assert(cs.entry_upserts.map_values(|li: ListItem| li.key()) =~= target);
    assert forall|i: int, j: int|
        0 <= i < cs.entry_deletions.len() && 0 <= j < cs.entry_upserts.len()
        implies cs.entry_deletions[i] != cs.entry_upserts[j].key() by {
        assert(dels.contains(dels[i]));
        assert(cs.entry_upserts[j].key() == target[j]);
    }
}

/// The change set is a function of the stored snapshot, the fetched user and
/// the canonical entries: two results computed from the same inputs are equal.
pub proof fn lemma_diff_deterministic(
    local: LocalSnapshot,
    user: Option<anilist_models::User>,
    canonical: Seq<Entry>,
    first: ChangeSet,
    second: ChangeSet,
)
    requires
        first@ == expected_changes(local, user, canonical),
        second@ == expected_changes(local, user, canonical),
    ensures
        first@ == second@,
{
}

} // verus!
