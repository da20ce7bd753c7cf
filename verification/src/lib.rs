//! The core of a browser for very long lists of files: a search whose
//! results are stamped with a generation so that stale ones are dropped, a
//! viewport that shows a window of the list, and a thumbnail queue that is
//! reconciled with that window as it scrolls and zooms.
//!
//! The library decides; it does no input or output and starts no thread.
//! Each operation of [`browser::Browser`] changes the state and returns
//! what is left to do outside: which jobs to cancel, which to start, what
//! to repaint.

pub mod browser;
pub mod cache;
pub mod chars;
pub mod columns;
pub mod config;
pub mod file_result;
pub mod lang;
pub mod lang_file;
pub mod list_file;
pub mod order;
pub mod sample;
pub mod search;
pub mod text;
pub mod thumbnail;
pub mod viewport;
