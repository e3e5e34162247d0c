//! Decisions of the SQLite-backed storage: queue appends, library directory
//! removal, and the debounced settings writer.

use vstd::prelude::*;

use crate::text::same_text;

pub mod disk_sync;
pub mod music_dirs;
pub mod queue;

verus! {

/// How the connection pool is set up for a database path.
#[derive(Debug, Clone, Copy, PartialEq, Eq, Structural)]
pub struct ConnectionPolicy {
    /// The database lives in memory.
    pub in_memory: bool,
    /// Most pooled connections.
    pub max_connections: u32,
    /// Write-ahead journaling with normal synchronisation.
    pub write_ahead_log: bool,
}

/// An in-memory database (`:memory:`) gets a single connection and no
/// write-ahead log; a file database gets eight connections and the log.
pub fn connection_policy(database_path: &str) -> (p: ConnectionPolicy)
    ensures
        p.in_memory == (database_path@ == ":memory:"@),
        p.in_memory ==> p.max_connections == 1 && !p.write_ahead_log,
        !p.in_memory ==> p.max_connections == 8 && p.write_ahead_log,
{
    let in_memory = same_text(database_path, ":memory:");
    if in_memory {
        ConnectionPolicy { in_memory, max_connections: 1, write_ahead_log: false }
    } else {
        ConnectionPolicy { in_memory, max_connections: 8, write_ahead_log: true }
    }
}

} // verus!
