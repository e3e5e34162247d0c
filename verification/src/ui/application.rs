//! Window-level decisions: which library view shows, how search filters
//! follow view switches, the header for each navigation state, and the
//! player bar's visibility.

use vstd::prelude::*;


verus! {

/// The four library views of the main stack.
#[derive(Debug, Clone, Copy, PartialEq, Eq, Structural)]
pub enum ViewKind {
    /// Albums as a grid.
    AlbumGrid,
    /// Albums as a list.
    AlbumList,
    /// Artists as a grid.
    ArtistGrid,
    /// Artists as a list.
    ArtistList,
}

/// Library tab.
#[derive(Debug, Clone, Copy, PartialEq, Eq, Structural)]
pub enum LibraryTab {
    /// Albums tab.
    Albums,
    /// Artists tab.
    Artists,
}

/// Presentation of the library lists.
#[derive(Debug, Clone, Copy, PartialEq, Eq, Structural)]
pub enum LibraryLayout {
    /// Grid of cards.
    Grid,
    /// List with columns.
    List,
}

/// Stack child name of a view.
pub open spec fn view_child_name(v: ViewKind) -> Seq<char> {
    match v {
        ViewKind::AlbumGrid => "album_grid"@,
        ViewKind::AlbumList => "album_list"@,
        ViewKind::ArtistGrid => "artist_grid"@,
        ViewKind::ArtistList => "artist_list"@,
    }
}

/// The view that shows a tab in a layout.
pub open spec fn view_for(tab: LibraryTab, layout: LibraryLayout) -> ViewKind {
    match (tab, layout) {
        (LibraryTab::Albums, LibraryLayout::Grid) => ViewKind::AlbumGrid,
        (LibraryTab::Albums, LibraryLayout::List) => ViewKind::AlbumList,
        (LibraryTab::Artists, LibraryLayout::Grid) => ViewKind::ArtistGrid,
        (LibraryTab::Artists, LibraryLayout::List) => ViewKind::ArtistList,
    }
}

/// Whether a view lists albums (rather than artists).
pub open spec fn lists_albums(v: ViewKind) -> bool {
    v == ViewKind::AlbumGrid || v == ViewKind::AlbumList
}

/// Whether a view lays its items out as a grid (rather than a list).
pub open spec fn is_grid_view(v: ViewKind) -> bool {
    v == ViewKind::AlbumGrid || v == ViewKind::ArtistGrid
}

/// The view shown for a tab and a layout lists that tab's items in that
/// layout, and its stack child is named `<album|artist>_<grid|list>` after
/// them; so different tab and layout choices never show the same view.
pub proof fn view_for_law(tab: LibraryTab, layout: LibraryLayout, tab2: LibraryTab, layout2: LibraryLayout)
    ensures
        lists_albums(view_for(tab, layout)) == (tab == LibraryTab::Albums),
        is_grid_view(view_for(tab, layout)) == (layout == LibraryLayout::Grid),
        view_child_name(view_for(tab, layout)) == (if tab == LibraryTab::Albums {
            "album"@
        } else {
            "artist"@
        }) + "_"@ + (if layout == LibraryLayout::Grid {
            "grid"@
        } else {
            "list"@
        }),
        view_for(tab, layout) == view_for(tab2, layout2) ==> tab == tab2 && layout == layout2,
{
    reveal_strlit("album");
    reveal_strlit("artist");
    reveal_strlit("_");
    reveal_strlit("grid");
    reveal_strlit("list");
    reveal_strlit("album_grid");
    reveal_strlit("album_list");
    reveal_strlit("artist_grid");
    reveal_strlit("artist_list");
    assert("album_grid"@ =~= "album"@ + "_"@ + "grid"@);
    assert("album_list"@ =~= "album"@ + "_"@ + "list"@);
    assert("artist_grid"@ =~= "artist"@ + "_"@ + "grid"@);
    assert("artist_list"@ =~= "artist"@ + "_"@ + "list"@);
}


/// The stack child name of a view.
pub fn child_name(v: ViewKind) -> (s: &'static str)
    ensures
        s@ == view_child_name(v),
{
    match v {
        ViewKind::AlbumGrid => "album_grid",
        ViewKind::AlbumList => "album_list",
        ViewKind::ArtistGrid => "artist_grid",
        ViewKind::ArtistList => "artist_list",
    }
}

/// The view named by a stack child name, if any.
pub fn view_named(name: &str) -> (r: Option<ViewKind>)
    ensures
        r matches Some(v) ==> view_child_name(v) == name@,
        r.is_none() ==> forall|v: ViewKind| view_child_name(v) != name@,
{
    proof {
        reveal_strlit("album_grid");
        reveal_strlit("album_list");
        reveal_strlit("artist_grid");
        reveal_strlit("artist_list");
    }
    if crate::text::same_text(name, "album_grid") {
        Some(ViewKind::AlbumGrid)
    } else if crate::text::same_text(name, "album_list") {
        Some(ViewKind::AlbumList)
    } else if crate::text::same_text(name, "artist_grid") {
        Some(ViewKind::ArtistGrid)
    } else if crate::text::same_text(name, "artist_list") {
        Some(ViewKind::ArtistList)
    } else {
        None
    }
}

/// The view showing a tab in a layout.
pub fn view_for_tab(tab: LibraryTab, layout: LibraryLayout) -> (v: ViewKind)
    ensures
        v == view_for(tab, layout),
{
    match (tab, layout) {
        (LibraryTab::Albums, LibraryLayout::Grid) => ViewKind::AlbumGrid,
        (LibraryTab::Albums, LibraryLayout::List) => ViewKind::AlbumList,
        (LibraryTab::Artists, LibraryLayout::Grid) => ViewKind::ArtistGrid,
        (LibraryTab::Artists, LibraryLayout::List) => ViewKind::ArtistList,
    }
}

/// An instruction to a library view.
#[derive(Debug, Clone)]
pub enum ViewCommand {
    /// Show the items matching the query (all items for an empty query).
    Filter(ViewKind, String),
    /// Empty the view.
    Clear(ViewKind),
    /// Show or hide DR badges on the album grid.
    SetShowDrBadges(bool),
}

/// Whether a command filters view `v` with `q`.
pub open spec fn filters(c: ViewCommand, v: ViewKind, q: Seq<char>) -> bool {
    c matches ViewCommand::Filter(w, t) && w == v && t@ == q
}

/// A search filter change: every view is filtered with the query (an
/// absent filter shows everything), album grid, artist grid, album list,
/// artist list in that order.
pub fn handle_search_filter_changed(filter: Option<&str>) -> (cmds: Vec<ViewCommand>)
    ensures
        cmds@.len() == 4,
        filters(cmds@[0], ViewKind::AlbumGrid, match filter { Some(f) => f@, None => Seq::empty() }),
        filters(cmds@[1], ViewKind::ArtistGrid, match filter { Some(f) => f@, None => Seq::empty() }),
        filters(cmds@[2], ViewKind::AlbumList, match filter { Some(f) => f@, None => Seq::empty() }),
        filters(cmds@[3], ViewKind::ArtistList, match filter { Some(f) => f@, None => Seq::empty() }),
{
    let query: &str = match filter {
        Some(f) => f,
        None => "",
    };
    proof {
        reveal_strlit("");
        assert(""@ =~= Seq::<char>::empty());
    }
    let ghost q = match filter {
        Some(f) => f@,
        None => Seq::<char>::empty(),
    };
    assert(query@ == q);
    let mut cmds: Vec<ViewCommand> = Vec::new();
    cmds.push(ViewCommand::Filter(ViewKind::AlbumGrid, String::from_str(query)));
    cmds.push(ViewCommand::Filter(ViewKind::ArtistGrid, String::from_str(query)));
    cmds.push(ViewCommand::Filter(ViewKind::AlbumList, String::from_str(query)));
    cmds.push(ViewCommand::Filter(ViewKind::ArtistList, String::from_str(query)));
    assert(filters(cmds@[0], ViewKind::AlbumGrid, q));
    assert(filters(cmds@[1], ViewKind::ArtistGrid, q));
    cmds
}

/// A settings change: the album grid shows or hides its DR badges.
pub fn handle_settings_changed(show_dr_values: bool) -> (c: ViewCommand)
    ensures
        c matches ViewCommand::SetShowDrBadges(b) && b == show_dr_values,
{
    ViewCommand::SetShowDrBadges(show_dr_values)
}

/// New library data: once the lists are replaced, an active search is
/// applied again to the visible view.
pub fn handle_library_data_changed(current_filter: Option<&str>, visible_child: Option<&str>) -> (c: Option<ViewCommand>)
    ensures
        match (current_filter, visible_child) {
            (Some(f), Some(name)) => match c {
                Some(cmd) => exists|v: ViewKind| view_child_name(v) == name@ && filters(cmd, v, f@),
                None => forall|v: ViewKind| view_child_name(v) != name@,
            },
            _ => c.is_none(),
        },
{
    match (current_filter, visible_child) {
        (Some(f), Some(name)) => match view_named(name) {
            Some(v) => {
                let c = ViewCommand::Filter(v, String::from_str(f));
                assert(filters(c, v, f@));
                Some(c)
            },
            None => None,
        },
        _ => None,
    }
}

/// How the library views change when the tab or layout changes.
#[derive(Debug, Clone)]
pub struct ViewSwitchPlan {
    /// The tab to remember for the next change.
    pub previous_tab: LibraryTab,
    /// The view to show (scrolled to the top).
    pub show: ViewKind,
    /// What the view is given before it shows.
    pub before: ViewCommand,
    /// Whether the search is closed and cleared, silently, after the switch.
    pub clear_search: bool,
    /// What the view is given after the search is cleared.
    pub after: Option<ViewCommand>,
}

/// Decide a tab or layout change. A tab change drops an active search: the
/// incoming view is emptied first (so it does not flash every item), the
/// search is cleared after the switch, and the view then shows everything.
/// A layout change within a tab keeps the search and applies it to the new view.
pub fn handle_view_options_changed(previous_tab: Option<LibraryTab>, current_tab: LibraryTab, layout: LibraryLayout, search_filter: Option<&str>) -> (p: ViewSwitchPlan)
    ensures
        p.previous_tab == current_tab,
        p.show == view_for(current_tab, layout),
        ({
            let tab_changed = previous_tab matches Some(t) && t != current_tab;
            let v = view_for(current_tab, layout);
            &&& tab_changed && search_filter.is_some() ==> (p.before matches ViewCommand::Clear(w) && w == v)
                && p.clear_search && (p.after matches Some(a) && filters(a, v, Seq::empty()))
            &&& tab_changed && search_filter.is_none() ==> filters(p.before, v, Seq::empty())
                && !p.clear_search && p.after.is_none()
            &&& !tab_changed ==> filters(p.before, v, match search_filter { Some(f) => f@, None => Seq::empty() })
                && !p.clear_search && p.after.is_none()
        }),
{
    let tab_changed = match previous_tab {
        Some(t) => t != current_tab,
        None => false,
    };
    let v = view_for_tab(current_tab, layout);
    proof {
        reveal_strlit("");
    }
    if tab_changed {
        match search_filter {
            Some(_) => ViewSwitchPlan {
                previous_tab: current_tab,
                show: v,
                before: ViewCommand::Clear(v),
                clear_search: true,
                after: Some(ViewCommand::Filter(v, String::new())),
            },
            None => ViewSwitchPlan {
                previous_tab: current_tab,
                show: v,
                before: ViewCommand::Filter(v, String::new()),
                clear_search: false,
                after: None,
            },
        }
    } else {
        let q = match search_filter {
            Some(f) => String::from_str(f),
            None => String::new(),
        };
        ViewSwitchPlan { previous_tab: current_tab, show: v, before: ViewCommand::Filter(v, q), clear_search: false, after: None }
    }
}

/// The toast shown when exclusive-mode playback fails.
pub fn handle_exclusive_mode_failed(reason: &str) -> (s: String)
    ensures
        s@ == "Exclusive mode playback failed: "@ + reason@,
{
    let mut s = String::from_str("Exclusive mode playback failed: ");
    s.append(reason);
    s
}

/// Where the window's navigation stands.
#[derive(Debug, Clone, Copy, PartialEq, Eq, Structural)]
pub enum NavigationState {
    /// The library lists.
    Library,
    /// An album's detail page.
    AlbumDetail,
    /// An artist's detail page.
    ArtistDetail,
}

/// Header buttons for a navigation state.
#[derive(Debug, Clone, Copy, PartialEq, Eq, Structural)]
pub struct HeaderPlan {
    /// Back button.
    pub back_button: bool,
    /// Search button.
    pub search_button: bool,
    /// View split button.
    pub view_split_button: bool,
    /// Whether the title shows the tab switcher (else no title widget).
    pub tab_title: bool,
}

/// Library shows the library controls and tabs; a detail page shows only
/// the back button.
pub fn header_for(nav: NavigationState) -> (h: HeaderPlan)
    ensures
        nav == NavigationState::Library ==> h == (HeaderPlan { back_button: false, search_button: true, view_split_button: true, tab_title: true }),
        nav != NavigationState::Library ==> h == (HeaderPlan { back_button: true, search_button: false, view_split_button: false, tab_title: false }),
{
    match nav {
        NavigationState::Library => HeaderPlan { back_button: false, search_button: true, view_split_button: true, tab_title: true },
        _ => HeaderPlan { back_button: true, search_button: false, view_split_button: false, tab_title: false },
    }
}

/// Escape on a detail page returns to the library (`true`: handled);
/// in the library it is left to other handlers.
pub fn esc_returns_to_library(nav: NavigationState) -> (handled: bool)
    ensures
        handled == (nav != NavigationState::Library),
{
    nav != NavigationState::Library
}

/// The toast shown when a detail page cannot be built: `Failed to load
/// album: <title>` or `Failed to load artist: <name>`.
pub fn detail_failed_message(is_album: bool, name: &str) -> (s: String)
    ensures
        is_album ==> s@ == "Failed to load album: "@ + name@,
        !is_album ==> s@ == "Failed to load artist: "@ + name@,
{
    let mut s = if is_album {
        String::from_str("Failed to load album: ")
    } else {
        String::from_str("Failed to load artist: ")
    };
    s.append(name);
    s
}

/// Playback states reported to the window.
#[derive(Debug, Clone, Copy, PartialEq, Eq, Structural)]
pub enum PlaybackState {
    /// Playing.
    Playing,
    /// Paused.
    Paused,
    /// Buffering.
    Buffering,
    /// A track is loaded.
    Ready,
    /// Stopped.
    Stopped,
}

/// The player bar shows while a track is loaded and hides only when stopped.
pub fn player_bar_visible(state: PlaybackState) -> (v: bool)
    ensures
        v == (state != PlaybackState::Stopped),
{
    match state {
        PlaybackState::Stopped => false,
        _ => true,
    }
}

} // verus!
