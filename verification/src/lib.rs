//! Core of an interactive terminal directory browser.
//!
//! The crate owns the navigation state machine (current directory, entry
//! list, selection pivot, pivot history), the scrollable-viewport arithmetic
//! that keeps the selection on screen, the entry-catalog construction, the
//! textual frame contents, and the key-to-command routing. Terminal I/O and
//! the filesystem reads themselves live outside: callers read a directory
//! into plain `ChildInfo` values and hand them in, and take rendered frame
//! lines back out.

pub mod entry;
pub mod errors;
pub mod fs_path;
pub mod render;
pub mod router;
pub mod rover;
pub mod scraper;
pub mod viewport;
