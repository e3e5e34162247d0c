//! Empty search result state: the message shown when a search finds nothing.

use vstd::prelude::*;

verus! {

/// Configuration for the empty search state.
#[derive(Debug, Clone, Copy, PartialEq, Eq, Structural)]
pub struct SearchEmptyStateConfig {
    /// Whether this is for albums or artists search.
    pub is_album_view: bool,
}

impl Default for SearchEmptyStateConfig {
    fn default() -> (c: SearchEmptyStateConfig)
        ensures
            !c.is_album_view,
    {
        SearchEmptyStateConfig { is_album_view: false }
    }
}

/// Builder pattern for configuring the empty search state.
#[derive(Debug, Clone, Copy, PartialEq, Eq, Structural)]
pub struct SearchEmptyStateBuilder {
    /// Configuration for the empty state.
    pub config: SearchEmptyStateConfig,
}

impl Default for SearchEmptyStateBuilder {
    fn default() -> (b: SearchEmptyStateBuilder)
        ensures
            !b.config.is_album_view,
    {
        SearchEmptyStateBuilder { config: SearchEmptyStateConfig { is_album_view: false } }
    }
}

impl SearchEmptyStateBuilder {
    /// Sets whether this is for albums or artists.
    pub fn is_album_view(self, is_album_view: bool) -> (b: SearchEmptyStateBuilder)
        ensures
            b.config.is_album_view == is_album_view,
    {
        SearchEmptyStateBuilder { config: SearchEmptyStateConfig { is_album_view } }
    }

    /// The configuration the builder holds.
    pub fn build(self) -> (c: SearchEmptyStateConfig)
        ensures
            c == self.config,
    {
        self.config
    }
}

/// The configuration of the default empty search state: albums.
pub fn default_search_config() -> (c: SearchEmptyStateConfig)
    ensures
        c.is_album_view,
{
    SearchEmptyStateConfig { is_album_view: true }
}

/// What the view lists: `albums` or `artists`.
pub open spec fn item_kind(is_album_view: bool) -> Seq<char> {
    if is_album_view {
        "albums"@
    } else {
        "artists"@
    }
}

/// Title and description for a search that found nothing.
pub open spec fn search_message_text(is_album_view: bool, query: Seq<char>) -> (Seq<char>, Seq<char>) {
    if query.len() == 0 {
        ("No "@ + item_kind(is_album_view) + " available"@, "Try searching for something"@)
    } else {
        (
            "No "@ + item_kind(is_album_view) + " found for \""@ + query + "\""@,
            "Try searching for something else"@,
        )
    }
}

/// The title and description to show for `query` when it found nothing.
pub fn search_message(config: SearchEmptyStateConfig, query: &str) -> (r: (String, &'static str))
    ensures
        (r.0@, r.1@) == search_message_text(config.is_album_view, query@),
{
    let kind = if config.is_album_view {
        "albums"
    } else {
        "artists"
    };
    let mut title = String::from_str("No ");
    title.append(kind);
    if query.is_empty() {
        title.append(" available");
        (title, "Try searching for something")
    } else {
        title.append(" found for \"");
        title.append(query);
        title.append("\"");
        (title, "Try searching for something else")
    }
}

/// The title names the kind of items its view lists, whatever the query:
/// it starts `No albums` exactly for an album view and `No artists` for an
/// artist view; a non-empty query is quoted at its end.
pub proof fn search_title_law(is_album_view: bool, query: Seq<char>)
    ensures
        (search_message_text(is_album_view, query).0.subrange(0, 9) == "No albums"@) == is_album_view,
        !is_album_view ==> search_message_text(is_album_view, query).0.subrange(0, 10) == "No artists"@,
        query.len() > 0 ==> search_message_text(is_album_view, query).0.subrange(
            search_message_text(is_album_view, query).0.len() - query.len() - 2,
            search_message_text(is_album_view, query).0.len() as int,
        ) == "\""@ + query + "\""@,
{
    reveal_strlit("No ");
    reveal_strlit("albums");
    reveal_strlit("artists");
    reveal_strlit("No albums");
    reveal_strlit("No artists");
    reveal_strlit(" available");
    reveal_strlit(" found for \"");
    reveal_strlit("\"");
    let t = search_message_text(is_album_view, query).0;
    if is_album_view {
        assert(t.subrange(0, 9) =~= "No albums"@);
    } else {
        assert(t.subrange(0, 10) =~= "No artists"@);
        assert(t.subrange(0, 9)[8] == 't');
        assert("No albums"@[8] == 's');
    }
    if query.len() > 0 {
        assert(t.subrange(t.len() - query.len() - 2, t.len() as int) =~= "\""@ + query + "\""@);
    }
}

} // verus!
