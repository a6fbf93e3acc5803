//! The storage that owns the bookmark collection, as the router sees it.
use crate::types::{BookmarkId, SavedBookmark, UnsavedBookmark};
use vstd::prelude::*;

verus! {

/// Why storage could not carry out an operation.
#[derive(Clone, Debug)]
pub struct DbError {
    pub message: String,
}

/// A bookmark store. Each call either succeeds as a whole or reports an error;
/// the router passes on nothing of an error but the fact of it.
pub trait BukuDatabase {
    /// The whole collection, in the store's own order.
    fn get_all_bookmarks(&self) -> Result<Vec<SavedBookmark>, DbError>;

    /// The bookmarks with the given identifiers.
    fn get_bookmarks_by_id(&self, ids: Vec<BookmarkId>) -> Result<Vec<SavedBookmark>, DbError>;

    /// Stores new bookmarks; yields one identifier per bookmark, in order.
    fn add_bookmarks(&self, bms: &Vec<UnsavedBookmark>) -> Result<Vec<usize>, DbError>;

    /// Overwrites stored bookmarks, each found by its identifier.
    fn update_bookmarks(&self, bms: &Vec<SavedBookmark>) -> Result<Vec<usize>, DbError>;

    /// Removes the bookmarks with the given identifiers.
    fn delete_bookmarks(&self, bm_ids: &Vec<BookmarkId>) -> Result<Vec<usize>, DbError>;
}

} // verus!
