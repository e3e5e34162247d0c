//! Persistence record, insert, and update types.

use vstd::prelude::*;

verus! {

/// Full artist record from the database.
#[derive(Debug, Clone)]
pub struct Artist {
    /// Unique artist identifier.
    pub id: i64,
    /// Artist name.
    pub name: String,
    /// Number of albums by this artist.
    pub album_count: i32,
}

/// Represents the intent for a nullable database field in an update operation.
#[derive(Debug, Clone)]
pub enum FieldUpdate<T> {
    /// Do not touch this field.
    Skip,
    /// Set the field to SQL NULL.
    SetNull,
    /// Set the field to the given value.
    SetTo(T),
}

impl<T> Default for FieldUpdate<T> {
    fn default() -> (r: FieldUpdate<T>)
        ensures
            r is Skip,
    {
        FieldUpdate::Skip
    }
}

impl<T> FieldUpdate<T> {
    /// The change an update makes to its column: none when skipped, NULL, or the value.
    pub fn column_change(&self) -> (c: Option<Option<&T>>)
        ensures
            self is Skip ==> c.is_none(),
            self is SetNull ==> c == Some(None::<&T>),
            self matches FieldUpdate::SetTo(v) ==> c == Some(Some(v)),
    {
        match self {
            FieldUpdate::Skip => None,
            FieldUpdate::SetNull => Some(None),
            FieldUpdate::SetTo(v) => Some(Some(v)),
        }
    }
}

/// A configured library directory.
#[derive(Debug, Clone)]
pub struct LibraryDirectory {
    /// Unique directory identifier.
    pub id: i64,
    /// Absolute filesystem path.
    pub path: String,
    /// Whether this directory is actively watched.
    pub enabled: bool,
    /// Timestamp of last completed scan.
    pub last_scanned: Option<String>,
    /// When directory was added.
    pub added_at: String,
}

/// Insert data for a new album.
#[derive(Debug, Clone)]
pub struct NewAlbum {
    /// Album title.
    pub title: String,
    /// Foreign key to artist.
    pub artist_id: i64,
    /// Release year.
    pub year: Option<i32>,
    /// Genre tag.
    pub genre: Option<String>,
    /// Path to cached album artwork.
    pub artwork_path: Option<String>,
    /// Format description string.
    pub format_summary: String,
    /// Whether all tracks are lossless.
    pub lossless: bool,
    /// Audio codec name (e.g. "FLAC", "MP3").
    pub format: String,
    /// Bit depth (None for lossy formats).
    pub bit_depth: Option<i32>,
    /// Sample rate in Hz.
    pub sample_rate: Option<i32>,
}

/// Insert data for a new artist.
#[derive(Debug, Clone)]
pub struct NewArtist {
    /// Artist name.
    pub name: String,
}

/// Insert data for a new queue entry.
#[derive(Debug, Clone)]
pub struct NewQueueEntry {
    /// Foreign key to track.
    pub track_id: i64,
    /// Position in queue (0 = next to play).
    pub position: i32,
    /// How the track was queued ("album", "artist", "manual").
    pub context_type: Option<String>,
    /// Id of album/artist context.
    pub context_id: Option<i64>,
}

/// Context describing how a track was added to the queue.
#[derive(Debug, Clone, Copy)]
pub enum QueueContext {
    /// Queued from an album context.
    Album(i64),
    /// Queued from an artist context.
    Artist(i64),
    /// Manually queued.
    Manual,
}

/// Unique queue entry with database id.
#[derive(Debug, Clone)]
pub struct QueueEntry {
    /// Database id of this queue entry.
    pub id: i64,
    /// Foreign key to Track.
    pub track_id: i64,
    /// Position in queue (0 = next to play).
    pub position: i32,
    /// How the track was queued ("album", "artist", "manual").
    pub context_type: Option<String>,
    /// Id of album/artist context.
    pub context_id: Option<i64>,
    /// When this entry was added.
    pub added_at: String,
}

/// Audio metadata shared between insert and retrieval.
#[derive(Debug, Clone)]
pub struct TrackAudio {
    /// Absolute path to audio file.
    pub file_path: String,
    /// SHA-256 hex digest.
    pub content_hash: Option<String>,
    /// File format (FLAC, MP3, etc.).
    pub format: String,
    /// Native sample rate in Hz.
    pub sample_rate: i32,
    /// Bit depth (none for lossy formats).
    pub bit_depth: Option<i32>,
    /// Number of audio channels.
    pub channels: i32,
    /// Codec identifier.
    pub codec: String,
    /// Whether format is lossless.
    pub lossless: bool,
    /// Average bitrate in kbps.
    pub bitrate: Option<i32>,
    /// Foreign key to album.
    pub album_id: Option<i64>,
    /// Foreign key to artist.
    pub artist_id: Option<i64>,
    /// File size in bytes.
    pub file_size: i64,
    /// Filesystem mtime at scan time.
    pub last_modified: String,
}

} // verus!
