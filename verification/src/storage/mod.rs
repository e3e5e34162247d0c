//! Persistence-side data model: records, format summaries, sort rules,
//! preferences, and the decisions of the storage layer.

pub mod active_tab;
pub mod catalog;
pub mod config;
pub mod database;
pub mod formats;
pub mod settings;
pub mod sort_rules;
pub mod view_mode;

pub use catalog::{
    Artist, FieldUpdate, LibraryDirectory, NewAlbum, NewArtist, NewQueueEntry, QueueContext,
    QueueEntry, TrackAudio,
};

use vstd::prelude::*;

use crate::text::{int_to_string, int_text};

verus! {

/// Error type for storage operations.
#[derive(Debug, Clone)]
pub enum StorageError {
    /// Database error.
    Database(String),
    /// Entity not found.
    NotFound(String),
    /// Duplicate entry.
    Duplicate(String),
    /// Serialization error.
    Serialization(String),
    /// Invalid path.
    InvalidPath(String),
    /// The playback queue already holds its maximum number of entries.
    QueueFull {
        /// The maximum number of entries.
        max: i64,
    },
}

/// Convenience alias for storage operation results.
pub type StorageResult<T> = Result<T, StorageError>;

/// The user-facing message of a storage error.
pub open spec fn error_message(e: StorageError) -> Seq<char> {
    match e {
        StorageError::Database(m) => "Database error: "@ + m@,
        StorageError::NotFound(m) => "Entity not found: "@ + m@,
        StorageError::Duplicate(m) => "Duplicate entry: "@ + m@,
        StorageError::Serialization(m) => "Serialization error: "@ + m@,
        StorageError::InvalidPath(m) => "Invalid path: "@ + m@,
        StorageError::QueueFull { max } => "Queue is full (max "@ + int_text(max as int)
            + " entries)"@,
    }
}

impl StorageError {
    /// The user-facing message (`Database error: ...`).
    pub fn message(&self) -> (s: String)
        ensures
            s@ == error_message(*self),
    {
        match self {
            StorageError::Database(m) => {
                let mut s = String::from_str("Database error: ");
                s.append(m.as_str());
                s
            },
            StorageError::NotFound(m) => {
                let mut s = String::from_str("Entity not found: ");
                s.append(m.as_str());
                s
            },
            StorageError::Duplicate(m) => {
                let mut s = String::from_str("Duplicate entry: ");
                s.append(m.as_str());
                s
            },
            StorageError::Serialization(m) => {
                let mut s = String::from_str("Serialization error: ");
                s.append(m.as_str());
                s
            },
            StorageError::InvalidPath(m) => {
                let mut s = String::from_str("Invalid path: ");
                s.append(m.as_str());
                s
            },
            StorageError::QueueFull { max } => {
                let mut s = String::from_str("Queue is full (max ");
                let n = int_to_string(*max);
                s.append(n.as_str());
                s.append(" entries)");
                s
            },
        }
    }
}

/// An error wrapped with what was being done: a database error reading
/// `<context>: <message of the cause>`.
pub fn with_context(context: &str, cause: &StorageError) -> (e: StorageError)
    ensures
        e matches StorageError::Database(m) && m@ == context@ + ": "@ + error_message(*cause),
{
    let mut m = String::from_str(context);
    m.append(": ");
    let inner = cause.message();
    m.append(inner.as_str());
    StorageError::Database(m)
}

} // verus!
