//! The records the shell exchanges with its user interface. They are plain
//! shapes: every field is text, and no field constrains another.

use vstd::prelude::*;

verus! {

/// A saved page.
#[derive(Debug, Clone)]
pub struct Bookmark {
    pub id: String,
    pub title: String,
    pub url: String,
    pub created_at: String,
}

/// The saved pages, in the order in which they were added.
#[derive(Debug, Clone)]
pub struct Bookmarks {
    pub items: Vec<Bookmark>,
}

/// One visit to a page.
#[derive(Debug, Clone)]
pub struct HistoryEntry {
    pub id: String,
    pub title: String,
    pub url: String,
    pub visited_at: String,
}

} // verus!
