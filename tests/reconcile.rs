use anihistory::anilist_models::{Date, Entry, Image, Media, MediaList, Title, User as RemoteUser, Avatar};
use anihistory::date::CalendarDate;
use anihistory::differ::{diff, LocalSnapshot};
use anihistory::filter::{canonical_entries, contains_str, in_scope_folded, is_in_scope};
use anihistory::models::{Anime, ListItem, User};
use anihistory::sync::reconcile;

fn no_date() -> Date {
    Date { year: None, month: None, day: None }
}

fn entry(id: i32, score: Option<i16>) -> Entry {
    Entry {
        score_raw: score,
        started_at: no_date(),
        completed_at: no_date(),
        media: Media {
            id,
            title: Title {
                user_preferred: Some(format!("Show {}", id)),
                english: Some(format!("English {}", id)),
                romaji: None,
                native: None,
            },
            description: format!("About {}", id),
            cover_image: Image { large: format!("https://img.example/cover/{}.jpg", id) },
            average_score: Some(70),
            site_url: format!("https://site.example/{}", id),
        },
    }
}

fn stored_item(user_id: i32, anime_id: i32) -> ListItem {
    ListItem { user_id, anime_id, user_title: None, start_day: None, end_day: None, score: None }
}

fn stored_anime(anime_id: i32) -> Anime {
    Anime {
        anime_id,
        description: String::from("old"),
        cover_s3: format!("https://cache.example/anime_{}.jpg", anime_id),
        cover_anilist: format!("https://img.example/cover/{}.jpg", anime_id),
        average: None,
        native: None,
        romaji: None,
        english: None,
    }
}

fn snapshot(ids: &[i32]) -> LocalSnapshot {
    LocalSnapshot {
        user_id: 9,
        user: None,
        entries: ids.iter().map(|&i| stored_item(9, i)).collect(),
        media: ids.iter().map(|&i| stored_anime(i)).collect(),
    }
}

#[test]
fn deletes_missing_and_upserts_canonical() {
    let local = snapshot(&[1, 2, 3]);
    let canonical = vec![entry(2, Some(10)), entry(3, None), entry(4, Some(90))];
    let cs = diff(&local, &None, &canonical).unwrap();
    assert_eq!(cs.entry_deletions, vec![(9, 1)]);
    let keys: Vec<(i32, i32)> = cs.entry_upserts.iter().map(|li| (li.user_id, li.anime_id)).collect();
    assert_eq!(keys, vec![(9, 2), (9, 3), (9, 4)]);
    let media: Vec<i32> = cs.media_upserts.iter().map(|a| a.anime_id).collect();
    assert_eq!(media, vec![2, 3, 4]);
    assert!(cs.user_upsert.is_none());
}

#[test]
fn media_records_keep_cached_cover() {
    let local = snapshot(&[2]);
    let canonical = vec![entry(2, Some(10)), entry(4, None)];
    let cs = diff(&local, &None, &canonical).unwrap();
    assert_eq!(cs.media_upserts[0].cover_s3, "https://cache.example/anime_2.jpg");
    assert_eq!(cs.media_upserts[0].cover_anilist, "https://img.example/cover/2.jpg");
    assert_eq!(cs.media_upserts[0].description, "About 2");
    assert_eq!(cs.media_upserts[0].english, Some(String::from("English 2")));
    assert_eq!(cs.media_upserts[1].cover_s3, "");
    assert_eq!(cs.media_upserts[1].cover_anilist, "");
    assert_eq!(cs.entry_upserts[0].user_title, Some(String::from("Show 2")));
    assert_eq!(cs.entry_upserts[0].score, Some(10));
}

#[test]
fn missing_preferred_title_stays_unset() {
    let mut e = entry(7, None);
    e.media.title.user_preferred = None;
    let cs = diff(&snapshot(&[]), &None, &vec![e]).unwrap();
    assert_eq!(cs.entry_upserts[0].user_title, None);
}

#[test]
fn entry_dates_are_collapsed() {
    let mut e = entry(7, None);
    e.started_at = Date { year: Some(2020), month: Some(2), day: Some(15) };
    e.completed_at = Date { year: Some(2020), month: Some(3), day: None };
    let cs = diff(&snapshot(&[]), &None, &vec![e]).unwrap();
    assert_eq!(cs.entry_upserts[0].start_day, Some(CalendarDate { year: 2020, month: 2, day: 15 }));
    assert_eq!(cs.entry_upserts[0].end_day, None);
}

#[test]
fn impossible_date_aborts_diff() {
    let mut e = entry(7, None);
    e.completed_at = Date { year: Some(2021), month: Some(4), day: Some(31) };
    let r = diff(&snapshot(&[1]), &None, &vec![entry(1, None), e]);
    let err = r.unwrap_err();
    assert_eq!((err.year, err.month, err.day), (2021, 4, 31));
}

#[test]
fn user_upsert_when_user_fetched() {
    let mut local = snapshot(&[]);
    local.user = Some(User {
        user_id: 9,
        name: String::from("old"),
        avatar_s3: String::from("https://cache.example/user_9.png"),
        avatar_anilist: String::from("https://img.example/a.png"),
    });
    let remote = RemoteUser {
        id: 9,
        name: String::from("reader"),
        avatar: Avatar { large: String::from("https://img.example/b.png") },
    };
    let cs = diff(&local, &Some(remote), &vec![]).unwrap();
    let u = cs.user_upsert.unwrap();
    assert_eq!(u.user_id, 9);
    assert_eq!(u.name, "reader");
    assert_eq!(u.avatar_s3, "https://cache.example/user_9.png");
    assert_eq!(u.avatar_anilist, "https://img.example/a.png");
}

#[test]
fn diff_twice_gives_equal_change_sets() {
    let local = snapshot(&[1, 2, 3]);
    let canonical = vec![entry(2, Some(10)), entry(4, Some(90))];
    let a = diff(&local, &None, &canonical).unwrap();
    let b = diff(&local, &None, &canonical).unwrap();
    assert_eq!(format!("{:?}", a), format!("{:?}", b));
}

#[test]
fn no_key_both_written_and_removed() {
    let local = snapshot(&[1, 2, 3, 5]);
    let canonical = vec![entry(5, None), entry(1, None)];
    let cs = diff(&local, &None, &canonical).unwrap();
    for d in &cs.entry_deletions {
        assert!(!cs.entry_upserts.iter().any(|li| (li.user_id, li.anime_id) == *d));
    }
    assert_eq!(cs.entry_deletions, vec![(9, 2), (9, 3)]);
}

fn list(name: &str, entries: Vec<Entry>) -> MediaList {
    MediaList { name: String::from(name), entries }
}

#[test]
fn dropped_list_does_not_duplicate_entry() {
    let lists = vec![
        list("Completed", vec![entry(5, Some(87))]),
        list("Dropped", vec![entry(5, Some(40))]),
    ];
    let canonical = canonical_entries(&lists);
    assert_eq!(canonical.len(), 1);
    assert_eq!(canonical[0].media.id, 5);
    assert_eq!(canonical[0].score_raw, Some(87));
}

#[test]
fn recurring_media_keeps_last_seen() {
    let lists = vec![
        list("Watching", vec![entry(5, Some(10)), entry(6, Some(20))]),
        list("Rewatching completed", vec![entry(5, Some(99))]),
    ];
    let canonical = canonical_entries(&lists);
    let ids: Vec<i32> = canonical.iter().map(|e| e.media.id).collect();
    assert_eq!(ids, vec![5, 6]);
    assert_eq!(canonical[0].score_raw, Some(99));
}

#[test]
fn scope_is_case_insensitive_substring() {
    assert!(is_in_scope(&String::from("Completed")));
    assert!(is_in_scope(&String::from("WATCHING")));
    assert!(is_in_scope(&String::from("Completed TV")));
    assert!(!is_in_scope(&String::from("Dropped")));
    assert!(!is_in_scope(&String::from("Planning")));
    assert!(!is_in_scope(&String::from("")));
}

#[test]
fn folded_scope_needs_lowercase() {
    assert!(in_scope_folded(&String::from("completed")));
    assert!(!in_scope_folded(&String::from("Completed")));
    assert!(in_scope_folded(&String::from("re-watching")));
}

#[test]
fn substring_search() {
    assert!(contains_str("abcabd", "abd"));
    assert!(!contains_str("abcab", "abd"));
    assert!(contains_str("abc", ""));
    assert!(!contains_str("ab", "abc"));
}

#[test]
fn reconcile_filters_then_diffs() {
    let local = snapshot(&[1, 2, 3]);
    let lists = vec![
        list("Completed", vec![entry(2, Some(1)), entry(3, None)]),
        list("Paused", vec![entry(1, None)]),
        list("Watching", vec![entry(4, None)]),
    ];
    let cs = reconcile(&local, &None, &lists).unwrap();
    assert_eq!(cs.entry_deletions, vec![(9, 1)]);
    let keys: Vec<i32> = cs.entry_upserts.iter().map(|li| li.anime_id).collect();
    assert_eq!(keys, vec![2, 3, 4]);
}
