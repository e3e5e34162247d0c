//! Library refresh decisions: which view is repopulated, when the list view
//! is rebuilt, and when a screen change triggers a refresh.

use vstd::prelude::*;

use crate::text::same_text;

verus! {

/// The sort directions of the two tabs.
#[derive(Debug, Clone, Copy, PartialEq, Eq, Structural)]
pub struct SortFlags {
    /// Albums sorted ascending.
    pub ascending_albums: bool,
    /// Artists sorted ascending.
    pub ascending_artists: bool,
}

/// What a refresh repopulates.
#[derive(Debug, Clone, Copy, PartialEq, Eq, Structural)]
pub enum RefreshTarget {
    /// The albums grid.
    AlbumsGrid,
    /// The albums list (column view).
    AlbumsColumnView,
    /// The artists grid.
    ArtistsGrid,
    /// Nothing: another page shows.
    Nothing,
}

/// The page a refresh acts on: the visible page, or `albums` when none is known.
pub open spec fn refresh_page(page: Option<Seq<char>>) -> Seq<char> {
    match page {
        Some(p) => p,
        None => "albums"@,
    }
}

/// Refresh the visible tab: the tab's new sort direction is remembered, and
/// its view (grid or list for albums) is repopulated.
pub fn plan_refresh(page: Option<&str>, has_albums_grid: bool, flags: &mut SortFlags, ascending_albums: bool, ascending_artists: bool) -> (t: RefreshTarget)
    ensures
        ({
            let p = refresh_page(
                match page {
                    Some(s) => Some(s@),
                    None => None,
                },
            );
            &&& p == "albums"@ ==> *final(flags) == (SortFlags { ascending_albums, ..*old(flags) })
                && t == (if has_albums_grid {
                RefreshTarget::AlbumsGrid
            } else {
                RefreshTarget::AlbumsColumnView
            })
            &&& p == "artists"@ ==> *final(flags) == (SortFlags { ascending_artists, ..*old(flags) })
                && t == RefreshTarget::ArtistsGrid
            &&& p != "albums"@ && p != "artists"@ ==> *final(flags) == *old(flags) && t
                == RefreshTarget::Nothing
        }),
{
    proof {
        reveal_strlit("albums");
        reveal_strlit("artists");
    }
    let p: &str = match page {
        Some(s) => s,
        None => "albums",
    };
    assert("albums"@.len() != "artists"@.len());
    assert(p@ == refresh_page(
        match page {
            Some(s) => Some(s@),
            None => None,
        },
    ));
    if same_text(p, "albums") {
        flags.ascending_albums = ascending_albums;
        if has_albums_grid {
            RefreshTarget::AlbumsGrid
        } else {
            RefreshTarget::AlbumsColumnView
        }
    } else if same_text(p, "artists") {
        flags.ascending_artists = ascending_artists;
        RefreshTarget::ArtistsGrid
    } else {
        RefreshTarget::Nothing
    }
}

/// The display options the albums list was last built with.
#[derive(Debug, Clone, Copy, PartialEq, Eq, Structural)]
pub struct ListOptions {
    /// DR badges shown.
    pub show_dr_badges: bool,
    /// Original release years used.
    pub use_original_year: bool,
}

/// Whether the albums list must be rebuilt for the current options (it is
/// rebuilt when either option changed); the options are then remembered.
pub fn needs_list_rebuild(previous: &mut ListOptions, current: ListOptions) -> (rebuild: bool)
    ensures
        rebuild == (*old(previous) != current),
        rebuild ==> *final(previous) == current,
        !rebuild ==> *final(previous) == *old(previous),
{
    if previous.show_dr_badges != current.show_dr_badges || previous.use_original_year
        != current.use_original_year {
        *previous = current;
        true
    } else {
        false
    }
}

/// The remembered options at start: release years of first issue on, so the first
/// comparison of the year option does not force a rebuild by itself.
pub fn initial_list_options(show_dr_badges: bool) -> (o: ListOptions)
    ensures
        o == (ListOptions { show_dr_badges, use_original_year: true }),
{
    ListOptions { show_dr_badges, use_original_year: true }
}

/// A periodic screen check refreshes the library when the screen width
/// changed, unless the settings dialog is open.
pub fn screen_change_refreshes(settings_open: bool, known_width: i32, new_width: i32) -> (r: bool)
    ensures
        r == (!settings_open && known_width != new_width),
{
    !settings_open && known_width != new_width
}

/// The inner stack page: the scanning notice while a scan shows, else loading.
pub fn inner_stack_child(is_scanning_visible: bool) -> (s: &'static str)
    ensures
        is_scanning_visible ==> s@ == "scanning_state"@,
        !is_scanning_visible ==> s@ == "loading_state"@,
{
    if is_scanning_visible {
        "scanning_state"
    } else {
        "loading_state"
    }
}

/// After a scan completes, the scanning label of the visible tab shows and
/// the other is hidden: `(albums label, artists label)`.
pub fn scan_done_labels(page: Option<&str>) -> (r: (bool, bool))
    ensures
        r.0 == (page matches Some(p) && p@ == "albums"@),
        r.1 == (page matches Some(p) && p@ == "artists"@),
{
    match page {
        Some(p) => (same_text(p, "albums"), same_text(p, "artists")),
        None => (false, false),
    }
}

} // verus!
