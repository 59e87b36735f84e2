//! One synchronisation run: the decisions between the outside steps (fetch,
//! diff, image uploads, writes), and how image outcomes land in records.
//!
//! A run goes `NotStarted -> Fetching -> Diffing -> Applying -> Done`. Only a
//! failed remote fetch ends it in `Failed`. A change set that cannot be
//! computed (an impossible date) ends it in `Done` with nothing applied and
//! `aborted` set. While applying, each record write and each image outcome
//! is counted; the run is done once every write of the change set has been
//! reported, whether it succeeded or not.

use vstd::prelude::*;
use crate::anilist_models::{self, MediaList};
use crate::asset::{source_after, AssetOutcome};
use crate::date::InvalidDateError;
use crate::differ::{all_dates_valid, diff, expected_changes, first_date_error, ChangeSet, LocalSnapshot};
use crate::filter::{canonical_entries, canonical_of};
use crate::models::{Anime, AnimeView, User, UserView};

verus! {

#[derive(Clone, Copy, Debug, PartialEq, Eq)]
pub enum SyncPhase {
    NotStarted,
    Fetching,
    Diffing,
    Applying,
    Done,
    Failed,
}

/// What the outside steps report back.
#[derive(Clone, Copy, Debug, PartialEq, Eq)]
pub enum SyncEvent {
    Start,
    Fetched,
    FetchFailed,
    /// The change set was computed; it holds this many writes.
    Diffed(u64),
    DiffFailed,
    RecordApplied,
    RecordFailed,
    AssetUploaded,
    AssetSkipped,
    AssetFailed,
}

/// What to do next.
#[derive(Clone, Copy, Debug, PartialEq, Eq)]
pub enum SyncAction {
    FetchRemote,
    ComputeDiff,
    ApplyChanges,
    Continue,
    Finish,
    /// The event does not belong to the current phase; nothing changed.
    Ignore,
}

/// The state of one run, with the counts that it reports.
#[derive(Clone, Copy, Debug, PartialEq, Eq)]
pub struct SyncRun {
    pub phase: SyncPhase,
    pub aborted: bool,
    pub total: u64,
    pub applied: u64,
    pub failed: u64,
    pub uploaded: u64,
    pub skipped: u64,
    pub asset_failed: u64,
}

pub open spec fn saturating_inc(n: u64) -> u64 {
    if n == u64::MAX { n } else { (n + 1) as u64 }
}

fn inc(n: u64) -> (r: u64)
    ensures
        r == saturating_inc(n),
{
    if n == u64::MAX { n } else { n + 1 }
}

/// Phase and counts after `event`, and the action that follows.
pub open spec fn next(s: SyncRun, event: SyncEvent) -> (SyncRun, SyncAction) {
    match (s.phase, event) {
        (SyncPhase::NotStarted, SyncEvent::Start) =>
            (SyncRun { phase: SyncPhase::Fetching, ..s }, SyncAction::FetchRemote),
        (SyncPhase::Fetching, SyncEvent::Fetched) =>
            (SyncRun { phase: SyncPhase::Diffing, ..s }, SyncAction::ComputeDiff),
        (SyncPhase::Fetching, SyncEvent::FetchFailed) =>
            (SyncRun { phase: SyncPhase::Failed, ..s }, SyncAction::Finish),
        (SyncPhase::Diffing, SyncEvent::Diffed(n)) => if n == 0 {
            (SyncRun { phase: SyncPhase::Done, total: 0, ..s }, SyncAction::Finish)
        } else {
            (SyncRun { phase: SyncPhase::Applying, total: n, ..s }, SyncAction::ApplyChanges)
        },
        (SyncPhase::Diffing, SyncEvent::DiffFailed) =>
            (SyncRun { phase: SyncPhase::Done, aborted: true, ..s }, SyncAction::Finish),
        (SyncPhase::Applying, SyncEvent::RecordApplied) => {
            let t = SyncRun { applied: (s.applied + 1) as u64, ..s };
            if t.applied + t.failed == t.total {
                (SyncRun { phase: SyncPhase::Done, ..t }, SyncAction::Finish)
            } else {
                (t, SyncAction::Continue)
            }
        },
        (SyncPhase::Applying, SyncEvent::RecordFailed) => {
            let t = SyncRun { failed: (s.failed + 1) as u64, ..s };
            if t.applied + t.failed == t.total {
                (SyncRun { phase: SyncPhase::Done, ..t }, SyncAction::Finish)
            } else {
                (t, SyncAction::Continue)
            }
        },
        (SyncPhase::Applying, SyncEvent::AssetUploaded) =>
            (SyncRun { uploaded: saturating_inc(s.uploaded), ..s }, SyncAction::Continue),
        (SyncPhase::Applying, SyncEvent::AssetSkipped) =>
            (SyncRun { skipped: saturating_inc(s.skipped), ..s }, SyncAction::Continue),
        (SyncPhase::Applying, SyncEvent::AssetFailed) =>
            (SyncRun { asset_failed: saturating_inc(s.asset_failed), ..s }, SyncAction::Continue),
        _ => (s, SyncAction::Ignore),
    }
}

impl SyncRun {
    /// Counts are consistent with the phase: writes reported never exceed
    /// the writes of the change set, and a completed run reported them all.
    pub open spec fn wf(&self) -> bool {
        &&& self.applied + self.failed <= self.total
        &&& self.phase == SyncPhase::Applying ==> self.applied + self.failed < self.total
        &&& (self.phase == SyncPhase::Done && !self.aborted) ==> self.applied + self.failed
            == self.total
        &&& (self.phase == SyncPhase::NotStarted || self.phase == SyncPhase::Fetching
            || self.phase == SyncPhase::Diffing) ==> self.total == 0 && self.applied == 0
            && self.failed == 0 && !self.aborted
        &&& self.phase == SyncPhase::Failed ==> self.total == 0 && !self.aborted
    }

    pub fn new() -> (r: SyncRun)
        ensures
            r.phase == SyncPhase::NotStarted,
            r.wf(),
            !r.aborted && r.total == 0 && r.applied == 0 && r.failed == 0,
            r.uploaded == 0 && r.skipped == 0 && r.asset_failed == 0,
    {
        SyncRun {
            phase: SyncPhase::NotStarted,
            aborted: false,
            total: 0,
            applied: 0,
            failed: 0,
            uploaded: 0,
            skipped: 0,
            asset_failed: 0,
        }
    }

    /// Takes `event` into account and says what to do next.
    pub fn step(&mut self, event: SyncEvent) -> (action: SyncAction)
        requires
            old(self).wf(),
        ensures
            final(self).wf(),
            (*final(self), action) == next(*old(self), event),
    {
        match (self.phase, event) {
            (SyncPhase::NotStarted, SyncEvent::Start) => {
                self.phase = SyncPhase::Fetching;
                SyncAction::FetchRemote
            },
            (SyncPhase::Fetching, SyncEvent::Fetched) => {
                self.phase = SyncPhase::Diffing;
                SyncAction::ComputeDiff
            },
            (SyncPhase::Fetching, SyncEvent::FetchFailed) => {
                self.phase = SyncPhase::Failed;
                SyncAction::Finish
            },
            (SyncPhase::Diffing, SyncEvent::Diffed(n)) => {
                self.total = n;
                if n == 0 {
                    self.phase = SyncPhase::Done;
                    SyncAction::Finish
                } else {
                    self.phase = SyncPhase::Applying;
                    SyncAction::ApplyChanges
                }
            },
            (SyncPhase::Diffing, SyncEvent::DiffFailed) => {
                self.phase = SyncPhase::Done;
                self.aborted = true;
                SyncAction::Finish
            },
            (SyncPhase::Applying, SyncEvent::RecordApplied) => {
                self.applied = self.applied + 1;
                if self.applied + self.failed == self.total {
                    self.phase = SyncPhase::Done;
                    SyncAction::Finish
                } else {
                    SyncAction::Continue
                }
            },
            (SyncPhase::Applying, SyncEvent::RecordFailed) => {
                self.failed = self.failed + 1;
                if self.applied + self.failed == self.total {
                    self.phase = SyncPhase::Done;
                    SyncAction::Finish
                } else {
                    SyncAction::Continue
                }
            },
            (SyncPhase::Applying, SyncEvent::AssetUploaded) => {
                self.uploaded = inc(self.uploaded);
                SyncAction::Continue
            },
            (SyncPhase::Applying, SyncEvent::AssetSkipped) => {
                self.skipped = inc(self.skipped);
                SyncAction::Continue
            },
            (SyncPhase::Applying, SyncEvent::AssetFailed) => {
                self.asset_failed = inc(self.asset_failed);
                SyncAction::Continue
            },
            _ => SyncAction::Ignore,
        }
    }
}

/// Only a failed fetch ends a run in `Failed`.
pub proof fn lemma_failed_only_from_fetching(s: SyncRun, event: SyncEvent)
    requires
        s.phase != SyncPhase::Failed,
        next(s, event).0.phase == SyncPhase::Failed,
    ensures
        s.phase == SyncPhase::Fetching,
        event == SyncEvent::FetchFailed,
{
}

/// Computes the change set of one run from the stored snapshot, the fetched
/// user and the fetched lists: the lists are filtered and flattened into
/// canonical entries, which are then reconciled with the snapshot.
pub fn reconcile(local: &LocalSnapshot, user: &Option<anilist_models::User>, lists: &Vec<MediaList>)
    -> (r: Result<ChangeSet, InvalidDateError>)
    ensures
        r is Ok <==> all_dates_valid(canonical_of(lists@)),
        r matches Ok(cs) ==> cs@ == expected_changes(*local, *user, canonical_of(lists@))
            && cs@.wf(),
        r matches Err(err) ==> first_date_error(canonical_of(lists@), err),
{
    let canonical = canonical_entries(lists);
    diff(local, user, &canonical)
}

/// A media record after the outcome for its cover at `url`: the cached
/// reference and its source move to the new copy only when one was uploaded.
pub open spec fn settled_anime(a: AnimeView, url: Seq<char>, outcome: AssetOutcome) -> AnimeView {
    match outcome {
        AssetOutcome::Uploaded(r) => AnimeView { cover_s3: r@, cover_anilist: url, ..a },
        _ => a,
    }
}

/// A user record after the outcome for its avatar at `url` (as for covers).
pub open spec fn settled_user(u: UserView, url: Seq<char>, outcome: AssetOutcome) -> UserView {
    match outcome {
        AssetOutcome::Uploaded(r) => UserView { avatar_s3: r@, avatar_anilist: url, ..u },
        _ => u,
    }
}

/// Records the outcome for the cover at `url` in `anime`.
pub fn settle_cover(anime: &mut Anime, url: &String, outcome: &AssetOutcome)
    ensures
        final(anime)@ == settled_anime(old(anime)@, url@, *outcome),
        final(anime).cover_anilist@ == source_after(old(anime).cover_anilist@, url@, *outcome),
{
    match outcome {
        AssetOutcome::Uploaded(r) => {
            anime.cover_s3 = r.clone();
            anime.cover_anilist = url.clone();
        },
        _ => {},
    }
}

/// Records the outcome for the avatar at `url` in `user`.
pub fn settle_avatar(user: &mut User, url: &String, outcome: &AssetOutcome)
    ensures
        final(user)@ == settled_user(old(user)@, url@, *outcome),
        final(user).avatar_anilist@ == source_after(old(user).avatar_anilist@, url@, *outcome),
{
    match outcome {
        AssetOutcome::Uploaded(r) => {
            user.avatar_s3 = r.clone();
            user.avatar_anilist = url.clone();
        },
        _ => {},
    }
}

} // verus!
