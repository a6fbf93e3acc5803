//! What each request asks for, read from its JSON payload. A payload names its
//! method in the member `method` and carries its arguments in `data`; members
//! that a method does not use are ignored.
use crate::json::{
    as_i32, as_string, as_u32, as_usize, field, get_field, json_i32, json_string_value, json_u32,
    json_usize, Json,
};
use crate::types::{BookmarkId, SavedBookmark, UnsavedBookmark};
use vstd::prelude::*;

verus! {

/// The operation a request names.
#[derive(Clone, Copy, Debug, PartialEq, Eq, Structural)]
pub enum Method {
    Get,
    Options,
    Post,
    Put,
    Delete,
    /// `method` is a string, but not one of the five operations.
    UnknownMethod,
    /// There is no string member `method`.
    NoMethod,
}

/// The method a payload names.
pub open spec fn method_of(payload: Json) -> Method {
    match field(payload, "method"@) {
        Some(Json::String(m)) => if m@ == "GET"@ {
            Method::Get
        } else if m@ == "OPTIONS"@ {
            Method::Options
        } else if m@ == "POST"@ {
            Method::Post
        } else if m@ == "PUT"@ {
            Method::Put
        } else if m@ == "DELETE"@ {
            Method::Delete
        } else {
            Method::UnknownMethod
        },
        _ => Method::NoMethod,
    }
}

/// The member `key` of `v`, read as a string.
pub open spec fn string_field(v: Json, key: Seq<char>) -> Option<String> {
    match field(v, key) {
        Some(x) => as_string(x),
        None => None,
    }
}

/// The member `key` of `v`, read as an `i32`.
pub open spec fn i32_field(v: Json, key: Seq<char>) -> Option<i32> {
    match field(v, key) {
        Some(x) => as_i32(x),
        None => None,
    }
}

/// The member `key` of `v`, read as a `u32`.
pub open spec fn u32_field(v: Json, key: Seq<char>) -> Option<u32> {
    match field(v, key) {
        Some(x) => as_u32(x),
        None => None,
    }
}

/// `v` read as a bookmark to store: an object with the four text members and
/// integer flags.
pub open spec fn unsaved_of(v: Json) -> Option<UnsavedBookmark> {
    match (
        string_field(v, "url"@),
        string_field(v, "metadata"@),
        string_field(v, "tags"@),
        string_field(v, "desc"@),
        i32_field(v, "flags"@),
    ) {
        (Some(url), Some(metadata), Some(tags), Some(desc), Some(flags)) => Some(
            UnsavedBookmark { url, metadata, tags, desc, flags },
        ),
        _ => None,
    }
}

/// `v` read as a stored bookmark: a bookmark to store with an identifier.
pub open spec fn saved_of(v: Json) -> Option<SavedBookmark> {
    match (u32_field(v, "id"@), unsaved_of(v)) {
        (Some(id), Some(b)) => Some(
            SavedBookmark {
                id,
                url: b.url,
                metadata: b.metadata,
                tags: b.tags,
                desc: b.desc,
                flags: b.flags,
            },
        ),
        _ => None,
    }
}

/// `v` read as an array of bookmarks to store.
pub open spec fn unsaved_list(v: Json) -> Option<Seq<UnsavedBookmark>> {
    match v {
        Json::Array(items) => if forall|i: int|
            0 <= i < items@.len() ==> #[trigger] unsaved_of(items@[i]) is Some {
            Some(items@.map_values(|j: Json| unsaved_of(j)->0))
        } else {
            None
        },
        _ => None,
    }
}

/// `v` read as an array of stored bookmarks.
pub open spec fn saved_list(v: Json) -> Option<Seq<SavedBookmark>> {
    match v {
        Json::Array(items) => if forall|i: int|
            0 <= i < items@.len() ==> #[trigger] saved_of(items@[i]) is Some {
            Some(items@.map_values(|j: Json| saved_of(j)->0))
        } else {
            None
        },
        _ => None,
    }
}

/// `v` read as an array of bookmark identifiers.
pub open spec fn id_list(v: Json) -> Option<Seq<BookmarkId>> {
    match v {
        Json::Array(items) => if forall|i: int|
            0 <= i < items@.len() ==> #[trigger] as_u32(items@[i]) is Some {
            Some(items@.map_values(|j: Json| as_u32(j)->0))
        } else {
            None
        },
        _ => None,
    }
}

/// The member `key` of the payload's `data`.
pub open spec fn data_field(payload: Json, key: Seq<char>) -> Option<Json> {
    match field(payload, "data"@) {
        Some(data) => field(data, key),
        None => None,
    }
}

/// The offset a listing asks for, or `None` when the payload is bad. A
/// missing or null `data` or `data.offset` asks for none.
pub open spec fn get_request(payload: Json) -> Option<Option<usize>> {
    match field(payload, "data"@) {
        None => Some(None),
        Some(Json::Null) => Some(None),
        Some(Json::Object(entries)) => match field(Json::Object(entries), "offset"@) {
            None => Some(None),
            Some(Json::Null) => Some(None),
            Some(o) => match as_usize(o) {
                Some(n) => Some(Some(n)),
                None => None,
            },
        },
        Some(_) => None,
    }
}

/// The bookmarks an addition carries in `data.bookmarks`.
pub open spec fn post_request(payload: Json) -> Option<Seq<UnsavedBookmark>> {
    match data_field(payload, "bookmarks"@) {
        Some(v) => unsaved_list(v),
        None => None,
    }
}

/// The bookmarks an update carries in `data.bookmarks`.
pub open spec fn put_request(payload: Json) -> Option<Seq<SavedBookmark>> {
    match data_field(payload, "bookmarks"@) {
        Some(v) => saved_list(v),
        None => None,
    }
}

/// The identifiers a removal carries in `data.bookmark_ids`.
pub open spec fn delete_request(payload: Json) -> Option<Seq<BookmarkId>> {
    match data_field(payload, "bookmark_ids"@) {
        Some(v) => id_list(v),
        None => None,
    }
}

/// Whether `s` holds exactly the text `t`.
fn is_text(s: &String, t: &str) -> (r: bool)
    ensures
        r == (s@ == t@),
{
    *s == t.to_owned()
}

/// Reads the method a payload names.
pub fn classify(payload: &Json) -> (r: Method)
    ensures
        r == method_of(*payload),
{
    match get_field(payload, "method") {
        Some(Json::String(m)) => if is_text(m, "GET") {
            Method::Get
        } else if is_text(m, "OPTIONS") {
            Method::Options
        } else if is_text(m, "POST") {
            Method::Post
        } else if is_text(m, "PUT") {
            Method::Put
        } else if is_text(m, "DELETE") {
            Method::Delete
        } else {
            Method::UnknownMethod
        },
        _ => Method::NoMethod,
    }
}

fn string_member(v: &Json, key: &str) -> (r: Option<String>)
    ensures
        r == string_field(*v, key@),
{
    match get_field(v, key) {
        Some(x) => json_string_value(x),
        None => None,
    }
}

fn i32_member(v: &Json, key: &str) -> (r: Option<i32>)
    ensures
        r == i32_field(*v, key@),
{
    match get_field(v, key) {
        Some(x) => json_i32(x),
        None => None,
    }
}

fn u32_member(v: &Json, key: &str) -> (r: Option<u32>)
    ensures
        r == u32_field(*v, key@),
{
    match get_field(v, key) {
        Some(x) => json_u32(x),
        None => None,
    }
}

/// Reads a bookmark to store.
pub fn decode_unsaved(v: &Json) -> (r: Option<UnsavedBookmark>)
    ensures
        r == unsaved_of(*v),
{
    let url = match string_member(v, "url") {
        Some(s) => s,
        None => return None,
    };
    let metadata = match string_member(v, "metadata") {
        Some(s) => s,
        None => return None,
    };
    let tags = match string_member(v, "tags") {
        Some(s) => s,
        None => return None,
    };
    let desc = match string_member(v, "desc") {
        Some(s) => s,
        None => return None,
    };
    let flags = match i32_member(v, "flags") {
        Some(f) => f,
        None => return None,
    };
    Some(UnsavedBookmark { url, metadata, tags, desc, flags })
}

/// Reads a stored bookmark.
pub fn decode_saved(v: &Json) -> (r: Option<SavedBookmark>)
    ensures
        r == saved_of(*v),
{
    let id = match u32_member(v, "id") {
        Some(id) => id,
        None => return None,
    };
    match decode_unsaved(v) {
        Some(b) => Some(
            SavedBookmark {
                id,
                url: b.url,
                metadata: b.metadata,
                tags: b.tags,
                desc: b.desc,
                flags: b.flags,
            },
        ),
        None => None,
    }
}

/// Reads an array of bookmarks to store.
pub fn decode_unsaved_list(v: &Json) -> (r: Option<Vec<UnsavedBookmark>>)
    ensures
        match r {
            Some(bms) => unsaved_list(*v) == Some(bms@),
            None => unsaved_list(*v) is None,
        },
{
    match v {
        Json::Array(items) => {
            let mut out: Vec<UnsavedBookmark> = Vec::new();
            let mut i: usize = 0;
            while i < items.len()
                invariant
                    i <= items@.len(),
                    *v == Json::Array(*items),
                    forall|j: int| 0 <= j < i ==> #[trigger] unsaved_of(items@[j]) is Some,
                    out@ =~= items@.take(i as int).map_values(|j: Json| unsaved_of(j)->0),
                decreases items.len() - i,
            {
                match decode_unsaved(&items[i]) {
                    Some(b) => out.push(b),
                    None => {
                        assert(unsaved_of(items@[i as int]) is None);
                        return None;
                    },
                }
                i += 1;
                assert(out@ =~= items@.take(i as int).map_values(|j: Json| unsaved_of(j)->0));
            }
            assert(items@.take(items@.len() as int) == items@);
            Some(out)
        },
        _ => None,
    }
}

/// Reads an array of stored bookmarks.
pub fn decode_saved_list(v: &Json) -> (r: Option<Vec<SavedBookmark>>)
    ensures
        match r {
            Some(bms) => saved_list(*v) == Some(bms@),
            None => saved_list(*v) is None,
        },
{
    match v {
        Json::Array(items) => {
            let mut out: Vec<SavedBookmark> = Vec::new();
            let mut i: usize = 0;
            while i < items.len()
                invariant
                    i <= items@.len(),
                    *v == Json::Array(*items),
                    forall|j: int| 0 <= j < i ==> #[trigger] saved_of(items@[j]) is Some,
                    out@ =~= items@.take(i as int).map_values(|j: Json| saved_of(j)->0),
                decreases items.len() - i,
            {
                match decode_saved(&items[i]) {
                    Some(b) => out.push(b),
                    None => {
                        assert(saved_of(items@[i as int]) is None);
                        return None;
                    },
                }
                i += 1;
                assert(out@ =~= items@.take(i as int).map_values(|j: Json| saved_of(j)->0));
            }
            assert(items@.take(items@.len() as int) == items@);
            Some(out)
        },
        _ => None,
    }
}

/// Reads an array of bookmark identifiers.
pub fn decode_id_list(v: &Json) -> (r: Option<Vec<BookmarkId>>)
    ensures
        match r {
            Some(ids) => id_list(*v) == Some(ids@),
            None => id_list(*v) is None,
        },
{
    match v {
        Json::Array(items) => {
            let mut out: Vec<BookmarkId> = Vec::new();
            let mut i: usize = 0;
            while i < items.len()
                invariant
                    i <= items@.len(),
                    *v == Json::Array(*items),
                    forall|j: int| 0 <= j < i ==> #[trigger] as_u32(items@[j]) is Some,
                    out@ =~= items@.take(i as int).map_values(|j: Json| as_u32(j)->0),
                decreases items.len() - i,
            {
                match json_u32(&items[i]) {
                    Some(id) => out.push(id),
                    None => {
                        assert(as_u32(items@[i as int]) is None);
                        return None;
                    },
                }
                i += 1;
                assert(out@ =~= items@.take(i as int).map_values(|j: Json| as_u32(j)->0));
            }
            assert(items@.take(items@.len() as int) == items@);
            Some(out)
        },
        _ => None,
    }
}

fn data_member<'a>(payload: &'a Json, key: &str) -> (r: Option<&'a Json>)
    ensures
        match r {
            Some(x) => data_field(*payload, key@) == Some(*x),
            None => data_field(*payload, key@) is None,
        },
{
    match get_field(payload, "data") {
        Some(data) => get_field(data, key),
        None => None,
    }
}

/// Reads the offset a listing asks for.
pub fn decode_get(payload: &Json) -> (r: Option<Option<usize>>)
    ensures
        r == get_request(*payload),
{
    match get_field(payload, "data") {
        None => Some(None),
        Some(Json::Null) => Some(None),
        Some(data) => match data {
            Json::Object(_) => match get_field(data, "offset") {
                None => Some(None),
                Some(Json::Null) => Some(None),
                Some(o) => match json_usize(o) {
                    Some(n) => Some(Some(n)),
                    None => None,
                },
            },
            _ => None,
        },
    }
}

/// Reads the bookmarks an addition carries.
pub fn decode_post(payload: &Json) -> (r: Option<Vec<UnsavedBookmark>>)
    ensures
        match r {
            Some(bms) => post_request(*payload) == Some(bms@),
            None => post_request(*payload) is None,
        },
{
    match data_member(payload, "bookmarks") {
        Some(v) => decode_unsaved_list(v),
        None => None,
    }
}

/// Reads the bookmarks an update carries.
pub fn decode_put(payload: &Json) -> (r: Option<Vec<SavedBookmark>>)
    ensures
        match r {
            Some(bms) => put_request(*payload) == Some(bms@),
            None => put_request(*payload) is None,
        },
{
    match data_member(payload, "bookmarks") {
        Some(v) => decode_saved_list(v),
        None => None,
    }
}

/// Reads the identifiers a removal carries.
pub fn decode_delete(payload: &Json) -> (r: Option<Vec<BookmarkId>>)
    ensures
        match r {
            Some(ids) => delete_request(*payload) == Some(ids@),
            None => delete_request(*payload) is None,
        },
{
    match data_member(payload, "bookmark_ids") {
        Some(v) => decode_id_list(v),
        None => None,
    }
}

} // verus!
