//! The note record as the caller hands it in.

use vstd::prelude::*;

verus! {

/// One note of a collection. The caller owns every field; this layer never
/// validates or regenerates them, it only derives file representations.
pub struct Note {
    /// Opaque identifier, unique within a collection by the caller's promise.
    pub id: String,
    /// Display title; also the sole source of the exported file name.
    pub title: String,
    /// Free-form Markdown body.
    pub content: String,
    /// Identifier of the notebook the note belongs to; not checked here.
    pub notebook_id: String,
    /// Tags in insertion order.
    pub tags: Vec<String>,
    /// Caller-defined status token.
    pub status: String,
    /// Whether the note is pinned.
    pub pinned: bool,
    /// Creation time, milliseconds since the epoch, caller-supplied.
    pub created_at: i64,
    /// Last-update time, milliseconds since the epoch, caller-supplied.
    pub updated_at: i64,
}

} // verus!
