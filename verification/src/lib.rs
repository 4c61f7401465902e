//! The decisions of a small desktop browser shell: what to ask of the window,
//! where a download goes, what a new content view looks like, and how
//! identifiers and greetings are spelled. The host runtime carries the
//! requests out.

pub mod fetch;
pub mod greeting;
pub mod ident;
pub mod records;
pub mod webview;
pub mod window;

pub use greeting::greet;
pub use records::{Bookmark, Bookmarks, HistoryEntry};
