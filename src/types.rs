//! Bookmark records as they travel between the browser and the Buku database.
use vstd::prelude::*;

verus! {

pub type BookmarkId = u32;

/// A bookmark that storage has assigned an identifier to.
#[derive(Clone, Debug)]
pub struct SavedBookmark {
    pub id: BookmarkId,
    pub url: String,
    pub metadata: String,
    pub tags: String,
    pub desc: String,
    pub flags: i32,
}

/// A bookmark that has not been stored yet.
#[derive(Clone, Debug)]
pub struct UnsavedBookmark {
    pub url: String,
    pub metadata: String,
    pub tags: String,
    pub desc: String,
    pub flags: i32,
}

/// What a search asks of each field of a bookmark.
#[derive(Clone, Debug)]
pub struct BookmarkFilter {
    pub name: Option<String>,
    pub desc: Option<String>,
    pub url: Option<String>,
    pub tags: Option<Vec<String>>,
    pub wildcard: Option<Vec<String>>,
}

/// The quality of a match, and the character positions that matched.
pub type MatchDetails = (i64, Vec<usize>);

/// The quality of a match over several strings, with the positions matched in each.
pub type MatchDetailsMulti = (i64, Vec<(i32, Vec<usize>)>);

/// How each searched field of a bookmark matched.
#[derive(Clone, Debug)]
pub struct BookmarkMatch {
    pub name: Option<MatchDetails>,
    pub desc: Option<MatchDetails>,
    pub url: Option<MatchDetails>,
    pub tags: Option<MatchDetailsMulti>,
}

} // verus!
