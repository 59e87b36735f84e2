//! Records of the local store, and the document served for a user's list.

use vstd::prelude::*;
use crate::anilist_models::copy_opt_string;
use crate::date::CalendarDate;

verus! {

/// A stored user. `avatar_s3` is the public reference of the cached avatar,
/// `avatar_anilist` the remote address it was copied from.
#[derive(Clone, Debug)]
pub struct User {
    pub user_id: i32,
    pub name: String,
    pub avatar_s3: String,
    pub avatar_anilist: String,
}

/// A stored media item. `cover_s3` is the public reference of the cached
/// cover, `cover_anilist` the remote address it was copied from.
#[derive(Clone, Debug)]
pub struct Anime {
    pub anime_id: i32,
    pub description: String,
    pub cover_s3: String,
    pub cover_anilist: String,
    pub average: Option<i16>,
    pub native: Option<String>,
    pub romaji: Option<String>,
    pub english: Option<String>,
}

/// A stored list entry, keyed by `(user_id, anime_id)`.
#[derive(Clone, Debug)]
pub struct ListItem {
    pub user_id: i32,
    pub anime_id: i32,
    pub user_title: Option<String>,
    pub start_day: Option<CalendarDate>,
    pub end_day: Option<CalendarDate>,
    pub score: Option<i16>,
}

/// One stored entry joined with its user and media records.
#[derive(Clone, Debug)]
pub struct ListItemMap {
    pub user: User,
    pub anime: Anime,
    pub list_item: ListItem,
}

/// The document served for a user's list.
#[derive(Clone, Debug)]
pub struct RestResponse {
    pub users: ResponseList,
}

#[derive(Clone, Debug)]
pub struct ResponseList {
    pub id: String,
    pub avatar: String,
    pub list: Vec<ResponseItem>,
}

#[derive(Clone, Debug)]
pub struct ResponseItem {
    pub user_title: Option<String>,
    pub start_day: Option<CalendarDate>,
    pub end_day: Option<CalendarDate>,
    pub score: Option<i16>,
    pub average: Option<i16>,
    pub native: Option<String>,
    pub romaji: Option<String>,
    pub english: Option<String>,
    pub description: String,
    pub cover: String,
    pub id: i32,
}

/// A user record as values.
pub struct UserView {
    pub user_id: i32,
    pub name: Seq<char>,
    pub avatar_s3: Seq<char>,
    pub avatar_anilist: Seq<char>,
}

/// A media record as values.
pub struct AnimeView {
    pub anime_id: i32,
    pub description: Seq<char>,
    pub cover_s3: Seq<char>,
    pub cover_anilist: Seq<char>,
    pub average: Option<i16>,
    pub native: Option<Seq<char>>,
    pub romaji: Option<Seq<char>>,
    pub english: Option<Seq<char>>,
}

pub open spec fn opt_view(s: Option<String>) -> Option<Seq<char>> {
    match s {
        Some(v) => Some(v@),
        None => None,
    }
}

impl View for User {
    type V = UserView;

    open spec fn view(&self) -> UserView {
        UserView {
            user_id: self.user_id,
            name: self.name@,
            avatar_s3: self.avatar_s3@,
            avatar_anilist: self.avatar_anilist@,
        }
    }
}

impl View for Anime {
    type V = AnimeView;

    open spec fn view(&self) -> AnimeView {
        AnimeView {
            anime_id: self.anime_id,
            description: self.description@,
            cover_s3: self.cover_s3@,
            cover_anilist: self.cover_anilist@,
            average: self.average,
            native: opt_view(self.native),
            romaji: opt_view(self.romaji),
            english: opt_view(self.english),
        }
    }
}

impl User {
    pub fn duplicate(&self) -> (r: User)
        ensures
            r == *self,
    {
        User {
            user_id: self.user_id,
            name: self.name.clone(),
            avatar_s3: self.avatar_s3.clone(),
            avatar_anilist: self.avatar_anilist.clone(),
        }
    }
}

impl Anime {
    pub fn duplicate(&self) -> (r: Anime)
        ensures
            r == *self,
    {
        Anime {
            anime_id: self.anime_id,
            description: self.description.clone(),
            cover_s3: self.cover_s3.clone(),
            cover_anilist: self.cover_anilist.clone(),
            average: self.average,
            native: copy_opt_string(&self.native),
            romaji: copy_opt_string(&self.romaji),
            english: copy_opt_string(&self.english),
        }
    }
}

impl ListItem {
    pub fn duplicate(&self) -> (r: ListItem)
        ensures
            r == *self,
    {
        ListItem {
            user_id: self.user_id,
            anime_id: self.anime_id,
            user_title: copy_opt_string(&self.user_title),
            start_day: self.start_day,
            end_day: self.end_day,
            score: self.score,
        }
    }

    /// The store key of this entry.
    pub open spec fn key(&self) -> (i32, i32) {
        (self.user_id, self.anime_id)
    }
}

/// The served item for one joined row: the entry's own fields, the media's
/// fields, and the media's cached cover as `cover`.
pub open spec fn response_item_of(row: ListItemMap) -> ResponseItem {
    ResponseItem {
        user_title: row.list_item.user_title,
        start_day: row.list_item.start_day,
        end_day: row.list_item.end_day,
        score: row.list_item.score,
        average: row.anime.average,
        native: row.anime.native,
        romaji: row.anime.romaji,
        english: row.anime.english,
        description: row.anime.description,
        cover: row.anime.cover_s3,
        id: row.anime.anime_id,
    }
}

pub fn response_item(row: &ListItemMap) -> (r: ResponseItem)
    ensures
        r == response_item_of(*row),
{
    ResponseItem {
        user_title: copy_opt_string(&row.list_item.user_title),
        start_day: row.list_item.start_day,
        end_day: row.list_item.end_day,
        score: row.list_item.score,
        average: row.anime.average,
        native: copy_opt_string(&row.anime.native),
        romaji: copy_opt_string(&row.anime.romaji),
        english: copy_opt_string(&row.anime.english),
        description: row.anime.description.clone(),
        cover: row.anime.cover_s3.clone(),
        id: row.anime.anime_id,
    }
}

/// Builds the served document from a user's joined rows: none when there are
/// no rows; else the first row's user name and cached avatar, and one item
/// per row, in order.
pub fn build_response(rows: &Vec<ListItemMap>) -> (r: Option<RestResponse>)
    ensures
        r is None <==> rows@.len() == 0,
        r matches Some(resp) ==> {
            &&& resp.users.id == rows@[0].user.name
            &&& resp.users.avatar == rows@[0].user.avatar_s3
            &&& resp.users.list@ == rows@.map_values(|row: ListItemMap| response_item_of(row))
        },
{
    if rows.len() == 0 {
        return None;
    }
    let mut list: Vec<ResponseItem> = Vec::new();
    let mut i: usize = 0;
    while i < rows.len()
        invariant
            i <= rows@.len(),
            list@ == rows@.subrange(0, i as int).map_values(|row: ListItemMap| response_item_of(row)),
        decreases rows@.len() - i,
    {
        let item = response_item(&rows[i]);
        list.push(item);
        proof {
            assert(rows@.subrange(0, i + 1).map_values(|row: ListItemMap| response_item_of(row))
                =~= rows@.subrange(0, i as int).map_values(|row: ListItemMap| response_item_of(row))
                .push(response_item_of(rows@[i as int])));
        }
        i = i + 1;
    }
    proof {
        assert(rows@.subrange(0, rows@.len() as int) =~= rows@);
    }
    Some(RestResponse {
        users: ResponseList {
            id: rows[0].user.name.clone(),
            avatar: rows[0].user.avatar_s3.clone(),
            list,
        },
    })
}

} // verus!
