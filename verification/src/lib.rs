//! From a playlist to audio files: the titles of a paginated playlist are
//! collected page by page and normalized, cleaned for use as search terms,
//! and turned into the addresses and paths of the downloads.
//!
//! Nothing here reads or writes anything. A caller fetches pages and hands
//! them to the [`collector`], asks the lookup service at the address that
//! [`lookup`] gives and hands back the answer, and writes the text that
//! [`manifest`] gives.

pub mod collector;
pub mod lookup;
pub mod manifest;
pub mod playlist;
pub mod progress;
pub mod text;
pub mod title;
