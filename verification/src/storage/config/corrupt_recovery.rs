//! Error shaping for settings directory handling.

use vstd::prelude::*;

use crate::storage::StorageError;

verus! {

/// Format a config directory creation error: `<dir>: <error>` as a database error.
pub fn dir_error(dir: &str, err: &str) -> (e: StorageError)
    ensures
        e matches StorageError::Database(m) && m@ == dir@ + ": "@ + err@,
{
    let mut m = String::from_str(dir);
    m.append(": ");
    m.append(err);
    StorageError::Database(m)
}

} // verus!
