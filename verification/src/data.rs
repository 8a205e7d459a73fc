//! The collection: a bookmark, the store that owns the bookmarks and hands
//! out their ids, and the mathematical picture of both.

use vstd::prelude::*;
use crate::command_types::{Category, Status};

verus! {

/// A moment, as the seconds since the start of 1970 (UTC) and the
/// nanoseconds into that second.
#[derive(Debug, Clone, Copy, PartialEq, Eq, Structural)]
pub struct Timestamp {
    pub secs: i64,
    pub nanos: u32,
}

/// One saved link.
#[derive(Debug)]
pub struct Bookmark {
    pub id: usize,
    pub title: String,
    pub category: Category,
    pub url: Option<String>,
    pub tags: Option<Vec<String>>,
    pub notes: Option<String>,
    pub status: Status,
    pub hidden: bool,
    pub created_at: Timestamp,
}

/// A [`Bookmark`] with its texts as sequences of characters.
pub struct BookmarkModel {
    pub id: usize,
    pub title: Seq<char>,
    pub category: Category,
    pub url: Option<Seq<char>>,
    pub tags: Option<Seq<Seq<char>>>,
    pub notes: Option<Seq<char>>,
    pub status: Status,
    pub hidden: bool,
    pub created_at: Timestamp,
}

/// The characters of an optional text.
pub open spec fn text_of(text: Option<String>) -> Option<Seq<char>> {
    match text {
        Some(t) => Some(t@),
        None => None,
    }
}

/// The characters of each text of a list.
pub open spec fn texts(list: Seq<String>) -> Seq<Seq<char>> {
    Seq::new(list.len(), |i: int| list[i]@)
}

/// The characters of each text of an optional list.
pub open spec fn texts_of(list: Option<Vec<String>>) -> Option<Seq<Seq<char>>> {
    match list {
        Some(l) => Some(texts(l@)),
        None => None,
    }
}

impl View for Bookmark {
    type V = BookmarkModel;

    open spec fn view(&self) -> BookmarkModel {
        BookmarkModel {
            id: self.id,
            title: self.title@,
            category: self.category,
            url: text_of(self.url),
            tags: texts_of(self.tags),
            notes: text_of(self.notes),
            status: self.status,
            hidden: self.hidden,
            created_at: self.created_at,
        }
    }
}

/// The picture of each bookmark of a list, in the list's order.
pub open spec fn models(list: Seq<Bookmark>) -> Seq<BookmarkModel> {
    Seq::new(list.len(), |i: int| list[i]@)
}

/// Bookmarks in the order in which they are shown, and the id that the next
/// new bookmark gets.
#[derive(Debug)]
pub struct BookmarkStore {
    pub next_id: usize,
    pub bookmarks: Vec<Bookmark>,
}

/// A [`BookmarkStore`] as a sequence of bookmark pictures.
pub struct StoreModel {
    pub next_id: usize,
    pub bookmarks: Seq<BookmarkModel>,
}

impl View for BookmarkStore {
    type V = StoreModel;

    open spec fn view(&self) -> StoreModel {
        StoreModel { next_id: self.next_id, bookmarks: models(self.bookmarks@) }
    }
}

impl StoreModel {
    /// The store that holds nothing yet.
    pub open spec fn fresh() -> StoreModel {
        StoreModel { next_id: 1, bookmarks: Seq::empty() }
    }

    /// Whether the ids are the positions: each bookmark's id is its place
    /// in the sequence, counted from 0, and the next id is the length.
    pub open spec fn normalized(self) -> bool {
        &&& self.next_id == self.bookmarks.len()
        &&& forall|i: int| 0 <= i < self.bookmarks.len() ==> (#[trigger] self.bookmarks[i]).id == i
    }
}

impl Default for BookmarkStore {
    /// The store that holds nothing yet. Its first bookmark gets the id 1.
    fn default() -> (store: BookmarkStore)
        ensures
            store@ == StoreModel::fresh(),
    {
        let store = BookmarkStore { next_id: 1, bookmarks: Vec::new() };
        assert(store@.bookmarks =~= Seq::empty());
        store
    }
}

impl BookmarkStore {
    /// The store to work on: the one that was read from the configured
    /// place, or a fresh one where nothing was kept there yet.
    pub fn load(stored: Option<BookmarkStore>) -> (store: BookmarkStore)
        ensures
            match stored {
                Some(kept) => store == kept,
                None => store@ == StoreModel::fresh(),
            },
    {
        match stored {
            Some(kept) => kept,
            None => BookmarkStore::default(),
        }
    }
}

} // verus!
