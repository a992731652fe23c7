//! Core of a local, single-user task tracker: quadrant/time-boxed todos and
//! daily routines, held in id-indexed stores that are loaded from and flushed
//! to JSON documents.
//!
//! The crate owns the entity models (progress/auto-complete rules, bounded
//! changelogs, soft deletion, daily reset), the stores with their save-time
//! ordering, and the operation layer a front end calls. Reading and writing
//! the files themselves, and turning file text into [`json::Json`] documents,
//! is left to the embedding program.

pub mod codec;
pub mod db;
pub mod fresh;
pub mod json;
pub mod ops;
pub mod routine;
pub mod text;
pub mod todo;

use vstd::prelude::*;

verus! {

/// Why an operation failed: the file could not be read or written, its
/// contents were not a document of the expected shape, or an identifier
/// is not in the store. Each variant carries the detail a caller shows:
/// the underlying I/O or shape complaint, or the offending identifier.
#[derive(Debug)]
pub enum DbError {
    Io(String),
    Parse(String),
    NotFound(String),
}

impl DbError {
    /// A human-readable rendering of the failure.
    pub fn message(&self) -> (r: String)
        ensures
            match self {
                DbError::Io(d) => r@ == "IO error: "@ + d@,
                DbError::Parse(d) => r@ == "JSON error: "@ + d@,
                DbError::NotFound(id) => r@ == "Item not found: "@ + id@,
            },
    {
        match self {
            DbError::Io(d) => String::from_str("IO error: ").concat(d.as_str()),
            DbError::Parse(d) => String::from_str("JSON error: ").concat(d.as_str()),
            DbError::NotFound(id) => String::from_str("Item not found: ").concat(id.as_str()),
        }
    }
}

impl Clone for DbError {
    /// A clone carries the same variant and detail.
    fn clone(&self) -> (r: Self)
        ensures
            match (self, &r) {
                (DbError::Io(a), DbError::Io(b)) => a@ == b@,
                (DbError::Parse(a), DbError::Parse(b)) => a@ == b@,
                (DbError::NotFound(a), DbError::NotFound(b)) => a@ == b@,
                _ => false,
            },
    {
        match self {
            DbError::Io(d) => DbError::Io(d.clone()),
            DbError::Parse(d) => DbError::Parse(d.clone()),
            DbError::NotFound(id) => DbError::NotFound(id.clone()),
        }
    }
}

} // verus!
