//! Backend core of a note-keeping application.
//!
//! The library covers the parts of the backend with real invariants: turning
//! a note collection into a deterministic set of Markdown files with front
//! matter (`export`), mapping arbitrary titles to safe file names
//! (`sanitize`), classifying the outcomes of git subprocesses (`git`), and
//! the fixed data-file paths with their load outcomes (`store`). All file
//! and subprocess I/O stays outside the library; callers hand in plain
//! values and apply the returned plans and outcomes.

pub mod export;
pub mod git;
pub mod note;
pub mod sanitize;
pub mod store;
pub mod text;
