//! Image caching decisions: file extension and content type of a remote
//! image, where its copy is stored, and whether it must be uploaded again.

use vstd::prelude::*;
use crate::text::{after_last, after_last_char, decimal, decimal_string, find_char_from, find_from,
    lemma_after_last_bounds, lemma_find_from_bounds};

verus! {

/// Which record an image belongs to.
#[derive(Clone, Copy, Debug, PartialEq, Eq)]
pub enum ImageTypes {
    Anime,
    User,
}

/// Where copies are stored: the key prefix inside the bucket and the public
/// address under which the bucket's keys are served.
#[derive(Clone, Debug)]
pub struct AssetConfig {
    pub key_prefix: String,
    pub public_base: String,
}

/// One upload to perform: the object key, its content type, and the public
/// reference under which the copy will be served.
#[derive(Clone, Debug)]
pub struct UploadRequest {
    pub key: String,
    pub content_type: String,
    pub storage_ref: String,
}

/// What to do about one image.
#[derive(Clone, Debug)]
pub enum AssetPlan {
    /// The stored copy was made from this very address.
    Skip,
    /// Download the address and upload it as described.
    Upload(UploadRequest),
    /// The address's last path segment has no extension to store it under.
    NoExtension,
}

/// What became of one image.
#[derive(Clone, Debug)]
pub enum AssetOutcome {
    Skipped,
    Uploaded(String),
    Failed,
}

/// The extension of an address: the text after the first `.` of its last
/// path segment, up to the next `.`; none when the segment has no `.`.
pub open spec fn extension_of(url: Seq<char>) -> Option<Seq<char>> {
    let p = find_from(url, '.', after_last(url, '/'));
    if p >= url.len() {
        None
    } else {
        Some(url.subrange(p + 1, find_from(url, '.', p + 1)))
    }
}

/// Content type for an extension: `jpg` and `jpeg` are `image/jpeg`, any
/// other extension `e` is `image/e`.
pub open spec fn mime_of(ext: Seq<char>) -> Seq<char> {
    if ext == "jpg"@ || ext == "jpeg"@ {
        "image/jpeg"@
    } else {
        "image/"@ + ext
    }
}

pub open spec fn kind_name(kind: ImageTypes) -> Seq<char> {
    match kind {
        ImageTypes::Anime => "anime"@,
        ImageTypes::User => "user"@,
    }
}

/// Object key `{prefix}{kind}_{id}.{ext}`.
pub open spec fn key_of(prefix: Seq<char>, kind: ImageTypes, id: int, ext: Seq<char>) -> Seq<char> {
    prefix + kind_name(kind) + "_"@ + decimal(id) + "."@ + ext
}

/// Whether an image stored from `stored` must be fetched again for `url`.
pub open spec fn needs_upload(stored: Seq<char>, url: Seq<char>) -> bool {
    stored != url
}

/// The source address recorded for an image after `outcome`: it moves to
/// `url` only when a copy of `url` was uploaded.
pub open spec fn source_after(stored: Seq<char>, url: Seq<char>, outcome: AssetOutcome) -> Seq<char> {
    match outcome {
        AssetOutcome::Uploaded(_) => url,
        _ => stored,
    }
}

/// The extension of an image address (see `extension_of`).
pub fn get_ext(url: &String) -> (r: Option<String>)
    ensures
        r is None <==> extension_of(url@) is None,
        r matches Some(e) ==> extension_of(url@) == Some(e@),
{
    let s = url.as_str();
    let n = s.unicode_len();
    let st = after_last_char(s, '/');
    let p = find_char_from(s, '.', st);
    proof {
        lemma_after_last_bounds(s@, '/');
        lemma_find_from_bounds(s@, '.', st as int);
    }
    if p >= n {
        return None;
    }
    let q = find_char_from(s, '.', p + 1);
    proof {
        lemma_find_from_bounds(s@, '.', p + 1);
    }
    Some(String::from_str(s.substring_char(p + 1, q)))
}

/// Content type of an image with extension `ext` (see `mime_of`).
pub fn naive_mime(ext: &String) -> (r: String)
    ensures
        r@ == mime_of(ext@),
{
    let jpg = String::from_str("jpg");
    let jpeg = String::from_str("jpeg");
    if ext.eq(&jpg) || ext.eq(&jpeg) {
        String::from_str("image/jpeg")
    } else {
        let mut r = String::from_str("image/");
        r.append(ext.as_str());
        r
    }
}

/// The word that names a kind of image in object keys.
pub fn kind_prefix(kind: ImageTypes) -> (r: String)
    ensures
        r@ == kind_name(kind),
{
    match kind {
        ImageTypes::Anime => String::from_str("anime"),
        ImageTypes::User => String::from_str("user"),
    }
}

/// Object key under which the image of record `id` with extension `ext` is stored.
pub fn storage_key(config: &AssetConfig, kind: ImageTypes, id: i32, ext: &String) -> (r: String)
    ensures
        r@ == key_of(config.key_prefix@, kind, id as int, ext@),
{
    let mut key = config.key_prefix.clone();
    let k = kind_prefix(kind);
    key.append(k.as_str());
    key.append("_");
    let d = decimal_string(id);
    key.append(d.as_str());
    key.append(".");
    key.append(ext.as_str());
    key
}

/// Decides what to do about the image at `url` of record `id`, whose stored
/// copy was made from `stored`: skip it when the address is unchanged, else
/// upload it under its key with its content type.
pub fn plan_asset(config: &AssetConfig, kind: ImageTypes, id: i32, stored: &String, url: &String)
    -> (r: AssetPlan)
    ensures
        r is Skip <==> !needs_upload(stored@, url@),
        r is NoExtension <==> needs_upload(stored@, url@) && extension_of(url@) is None,
        r matches AssetPlan::Upload(u) ==> {
            &&& needs_upload(stored@, url@)
            &&& extension_of(url@) matches Some(e)
            &&& u.key@ == key_of(config.key_prefix@, kind, id as int, e)
            &&& u.content_type@ == mime_of(e)
            &&& u.storage_ref@ == config.public_base@ + u.key@
        },
{
    if stored.eq(url) {
        return AssetPlan::Skip;
    }
    match get_ext(url) {
        None => AssetPlan::NoExtension,
        Some(ext) => {
            let key = storage_key(config, kind, id, &ext);
            let content_type = naive_mime(&ext);
            let mut storage_ref = config.public_base.clone();
            storage_ref.append(key.as_str());
            AssetPlan::Upload(UploadRequest { key, content_type, storage_ref })
        },
    }
}

/// Once an image was uploaded from an address, or found current for it, a
/// second decision for the same address skips it.
pub proof fn lemma_second_ensure_skips(stored: Seq<char>, url: Seq<char>, outcome: AssetOutcome)
    requires
        !needs_upload(stored, url) || outcome is Uploaded,
    ensures
        !needs_upload(source_after(stored, url, outcome), url),
{
}

} // verus!
