//! Playback queue rules: appending with a capacity limit, and stored positions.

use vstd::prelude::*;

use crate::storage::catalog::{NewQueueEntry, QueueContext};
use crate::storage::StorageError;

verus! {

/// Most entries the playback queue may hold.
pub const MAX_QUEUE_ENTRIES: i64 = 100_000;

/// Position of an entry appended after the given largest position: one past
/// it (saturating at `i32::MAX`), or 0 for an empty queue.
pub open spec fn next_position(max_position: Option<i32>) -> i32 {
    match max_position {
        None => 0,
        Some(p) => if p == i32::MAX {
            i32::MAX
        } else {
            (p + 1) as i32
        },
    }
}

/// The stored context kind and id of a queue context.
pub open spec fn context_columns(context: Option<QueueContext>) -> (Option<Seq<char>>, Option<i64>) {
    match context {
        Some(QueueContext::Album(id)) => (Some("album"@), Some(id)),
        Some(QueueContext::Artist(id)) => (Some("artist"@), Some(id)),
        _ => (None, None),
    }
}

/// The context columns of a queue context (`album` / `artist` with their id; none when manual).
pub fn context_columns_of(context: Option<QueueContext>) -> (r: (Option<String>, Option<i64>))
    ensures
        r.1 == context_columns(context).1,
        match (r.0, context_columns(context).0) {
            (Some(a), Some(b)) => a@ == b,
            (None, None) => true,
            _ => false,
        },
{
    match context {
        Some(QueueContext::Album(id)) => (Some(String::from_str("album")), Some(id)),
        Some(QueueContext::Artist(id)) => (Some(String::from_str("artist")), Some(id)),
        _ => (None, None),
    }
}

/// Plan the row for appending `track_id` to a queue that holds `count`
/// entries whose largest position is `max_position`.
///
/// A queue that already holds `MAX_QUEUE_ENTRIES` entries refuses the append.
pub fn plan_append(count: i64, max_position: Option<i32>, track_id: i64, context: Option<
    QueueContext,
>) -> (r: Result<NewQueueEntry, StorageError>)
    ensures
        count >= MAX_QUEUE_ENTRIES <==> r is Err,
        r matches Err(e) ==> e matches StorageError::QueueFull { max } && max == MAX_QUEUE_ENTRIES,
        r matches Ok(entry) ==> {
            &&& entry.track_id == track_id
            &&& entry.position == next_position(max_position)
            &&& entry.context_id == context_columns(context).1
            &&& match (entry.context_type, context_columns(context).0) {
                (Some(a), Some(b)) => a@ == b,
                (None, None) => true,
                _ => false,
            }
        },
        r matches Ok(entry) ==> match max_position {
            Some(p) => p < i32::MAX ==> entry.position > p,
            None => entry.position == 0,
        },
{
    if count >= MAX_QUEUE_ENTRIES {
        return Err(StorageError::QueueFull { max: MAX_QUEUE_ENTRIES });
    }
    let position: i32 = match max_position {
        None => 0,
        Some(p) => if p == i32::MAX {
            i32::MAX
        } else {
            p + 1
        },
    };
    let (context_type, context_id) = context_columns_of(context);
    Ok(NewQueueEntry { track_id, position, context_type, context_id })
}

/// The stored (signed) position of a requested queue position: the same bits
/// read as `i32` (`u32::cast_signed`).
pub fn stored_position(new_position: u32) -> (p: i32)
    ensures
        new_position <= i32::MAX ==> p == new_position,
        new_position > i32::MAX ==> p == new_position - 0x1_0000_0000,
{
    if new_position <= 0x7fff_ffff {
        new_position as i32
    } else {
        ((new_position - 0x8000_0000) as i32) - 0x7fff_ffff - 1
    }
}

} // verus!
