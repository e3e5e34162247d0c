//! Library directory rules: accepting a path, and the directory prefix used
//! when removing the tracks under a directory.

use vstd::prelude::*;

use crate::storage::StorageError;
use crate::text::{trim_end_char, trim_end_char_str};

verus! {

/// The stored text of a library directory path: its UTF-8 text, or an
/// invalid-path error naming how the path displays when it has none.
pub fn library_dir_text(utf8: Option<String>, display: String) -> (r: Result<String, StorageError>)
    ensures
        match utf8 {
            Some(t) => r matches Ok(s) && s@ == t@,
            None => r matches Err(StorageError::InvalidPath(m)) && m@ == display@,
        },
{
    match utf8 {
        Some(t) => Ok(t),
        None => Err(StorageError::InvalidPath(display)),
    }
}

/// A directory path without its trailing slashes, so that `/music/` and
/// `/music` select the same tracks.
pub fn normalized_dir(dir: &str) -> (r: String)
    ensures
        r@ == trim_end_char(dir@, '/'),
{
    trim_end_char_str(dir, '/')
}

/// Normalizing removes every trailing slash and changes nothing more.
pub proof fn normalized_dir_law(dir: Seq<char>)
    ensures
        trim_end_char(dir, '/').len() > 0 ==> trim_end_char(dir, '/').last() != '/',
        trim_end_char(trim_end_char(dir, '/'), '/') == trim_end_char(dir, '/'),
        trim_end_char(dir.push('/'), '/') == trim_end_char(dir, '/'),
        trim_end_char(dir, '/').len() <= dir.len(),
        dir.subrange(0, trim_end_char(dir, '/').len() as int) == trim_end_char(dir, '/'),
    decreases dir.len(),
{
    let p = dir.push('/');
    assert(p.drop_last() =~= dir);
    if dir.len() > 0 && dir.last() == '/' {
        normalized_dir_law(dir.drop_last());
        let t = trim_end_char(dir.drop_last(), '/');
        assert(dir.drop_last().subrange(0, t.len() as int) =~= dir.subrange(0, t.len() as int));
    } else {
        assert(dir.subrange(0, dir.len() as int) =~= dir);
    }
}

} // verus!
