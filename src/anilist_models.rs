//! Shapes of the documents returned by the remote catalog.

use vstd::prelude::*;

verus! {

/// Answer to a user lookup.
#[derive(Clone, Debug)]
pub struct UserResponse {
    pub data: UserData,
    pub errors: Option<Vec<Error>>,
}

/// One error reported by the catalog.
#[derive(Clone, Debug)]
pub struct Error {
    pub message: String,
    pub status: i32,
    pub locations: Vec<Location>,
}

/// Position in the query that an error refers to.
#[derive(Clone, Debug)]
pub struct Location {
    pub line: i32,
    pub column: i32,
}

/// Payload of a user lookup: absent when the name is unknown.
#[derive(Clone, Debug)]
pub struct UserData {
    pub user: Option<User>,
}

/// A catalog user.
#[derive(Clone, Debug)]
pub struct User {
    pub id: i32,
    pub name: String,
    pub avatar: Avatar,
}

/// Answer to a list lookup.
#[derive(Clone, Debug)]
pub struct ListResponse {
    pub data: MediaListCollectionData,
}

#[derive(Clone, Debug)]
pub struct MediaListCollectionData {
    pub media_list_collection: MediaListCollection,
}

/// All named lists of one user, in the catalog's order.
#[derive(Clone, Debug)]
pub struct MediaListCollection {
    pub lists: Vec<MediaList>,
}

#[derive(Clone, Debug)]
pub struct Avatar {
    pub large: String,
}

/// A named list ("Completed", "Watching", ...) and its entries.
#[derive(Clone, Debug)]
pub struct MediaList {
    pub name: String,
    pub entries: Vec<Entry>,
}

/// One media item on a user's list, with the user's own fields.
#[derive(Clone, Debug)]
pub struct Entry {
    pub score_raw: Option<i16>,
    pub started_at: Date,
    pub completed_at: Date,
    pub media: Media,
}

/// A possibly incomplete calendar date.
#[derive(Clone, Copy, Debug, PartialEq, Eq)]
pub struct Date {
    pub year: Option<i32>,
    pub month: Option<i32>,
    pub day: Option<i32>,
}

#[derive(Clone, Debug)]
pub struct Media {
    pub id: i32,
    pub title: Title,
    pub description: String,
    pub cover_image: Image,
    pub average_score: Option<i16>,
    pub site_url: String,
}

#[derive(Clone, Debug)]
pub struct Title {
    pub user_preferred: Option<String>,
    pub english: Option<String>,
    pub romaji: Option<String>,
    pub native: Option<String>,
}

#[derive(Clone, Debug)]
pub struct Image {
    pub large: String,
}

} // verus!

verus! {

/// A copy of an optional string, equal to it.
pub fn copy_opt_string(s: &Option<String>) -> (r: Option<String>)
    ensures
        r == *s,
{
    match s {
        Some(v) => Some(v.clone()),
        None => None,
    }
}

impl Title {
    pub fn duplicate(&self) -> (r: Title)
        ensures
            r == *self,
    {
        Title {
            user_preferred: copy_opt_string(&self.user_preferred),
            english: copy_opt_string(&self.english),
            romaji: copy_opt_string(&self.romaji),
            native: copy_opt_string(&self.native),
        }
    }
}

impl Media {
    pub fn duplicate(&self) -> (r: Media)
        ensures
            r == *self,
    {
        Media {
            id: self.id,
            title: self.title.duplicate(),
            description: self.description.clone(),
            cover_image: Image { large: self.cover_image.large.clone() },
            average_score: self.average_score,
            site_url: self.site_url.clone(),
        }
    }
}

impl Entry {
    pub fn duplicate(&self) -> (r: Entry)
        ensures
            r == *self,
    {
        Entry {
            score_raw: self.score_raw,
            started_at: self.started_at,
            completed_at: self.completed_at,
            media: self.media.duplicate(),
        }
    }
}

} // verus!
