use anihistory::date::CalendarDate;
use anihistory::models::{build_response, Anime, ListItem, ListItemMap, User};
use anihistory::sync::{SyncAction, SyncEvent, SyncPhase, SyncRun};

fn row(anime_id: i32) -> ListItemMap {
    ListItemMap {
        user: User {
            user_id: 4,
            name: String::from("reader"),
            avatar_s3: String::from("https://cache.example/user_4.png"),
            avatar_anilist: String::from("https://img.example/a.png"),
        },
        anime: Anime {
            anime_id,
            description: format!("About {}", anime_id),
            cover_s3: format!("https://cache.example/anime_{}.jpg", anime_id),
            cover_anilist: String::from("https://img.example/c.jpg"),
            average: Some(80),
            native: None,
            romaji: Some(String::from("Romaji")),
            english: None,
        },
        list_item: ListItem {
            user_id: 4,
            anime_id,
            user_title: Some(String::from("Title")),
            start_day: Some(CalendarDate { year: 2019, month: 1, day: 2 }),
            end_day: None,
            score: Some(75),
        },
    }
}

#[test]
fn response_for_rows() {
    let resp = build_response(&vec![row(1), row(2)]).unwrap();
    assert_eq!(resp.users.id, "reader");
    assert_eq!(resp.users.avatar, "https://cache.example/user_4.png");
    assert_eq!(resp.users.list.len(), 2);
    let item = &resp.users.list[1];
    assert_eq!(item.id, 2);
    assert_eq!(item.cover, "https://cache.example/anime_2.jpg");
    assert_eq!(item.description, "About 2");
    assert_eq!(item.score, Some(75));
    assert_eq!(item.average, Some(80));
    assert_eq!(item.romaji, Some(String::from("Romaji")));
    assert_eq!(item.start_day, Some(CalendarDate { year: 2019, month: 1, day: 2 }));
}

#[test]
fn no_rows_no_response() {
    assert!(build_response(&vec![]).is_none());
}

#[test]
fn full_run_reaches_done() {
    let mut run = SyncRun::new();
    assert_eq!(run.step(SyncEvent::Start), SyncAction::FetchRemote);
    assert_eq!(run.step(SyncEvent::Fetched), SyncAction::ComputeDiff);
    assert_eq!(run.step(SyncEvent::Diffed(3)), SyncAction::ApplyChanges);
    assert_eq!(run.step(SyncEvent::AssetUploaded), SyncAction::Continue);
    assert_eq!(run.step(SyncEvent::AssetSkipped), SyncAction::Continue);
    assert_eq!(run.step(SyncEvent::RecordApplied), SyncAction::Continue);
    assert_eq!(run.step(SyncEvent::RecordFailed), SyncAction::Continue);
    assert_eq!(run.step(SyncEvent::RecordApplied), SyncAction::Finish);
    assert_eq!(run.phase, SyncPhase::Done);
    assert_eq!((run.total, run.applied, run.failed), (3, 2, 1));
    assert_eq!((run.uploaded, run.skipped, run.asset_failed), (1, 1, 0));
    assert!(!run.aborted);
}

#[test]
fn failed_fetch_fails_run() {
    let mut run = SyncRun::new();
    run.step(SyncEvent::Start);
    assert_eq!(run.step(SyncEvent::FetchFailed), SyncAction::Finish);
    assert_eq!(run.phase, SyncPhase::Failed);
    assert_eq!(run.step(SyncEvent::Fetched), SyncAction::Ignore);
    assert_eq!(run.phase, SyncPhase::Failed);
}

#[test]
fn bad_date_aborts_without_failing() {
    let mut run = SyncRun::new();
    run.step(SyncEvent::Start);
    run.step(SyncEvent::Fetched);
    assert_eq!(run.step(SyncEvent::DiffFailed), SyncAction::Finish);
    assert_eq!(run.phase, SyncPhase::Done);
    assert!(run.aborted);
}

#[test]
fn empty_change_set_is_done_at_once() {
    let mut run = SyncRun::new();
    run.step(SyncEvent::Start);
    run.step(SyncEvent::Fetched);
    assert_eq!(run.step(SyncEvent::Diffed(0)), SyncAction::Finish);
    assert_eq!(run.phase, SyncPhase::Done);
}

#[test]
fn out_of_phase_events_are_ignored() {
    let mut run = SyncRun::new();
    assert_eq!(run.step(SyncEvent::RecordApplied), SyncAction::Ignore);
    assert_eq!(run.step(SyncEvent::FetchFailed), SyncAction::Ignore);
    assert_eq!(run.phase, SyncPhase::NotStarted);
}
