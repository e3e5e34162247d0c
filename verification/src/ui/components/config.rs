//! Application preferences of the library views and where they are stored.

use vstd::prelude::*;
use std::collections::HashMap;

use crate::storage::view_mode::ViewMode;
use crate::ui::components::sorting::SortOrder;

verus! {

/// A sort criterion of the stored preferences: the four of the sort menu,
/// and the DR value that the default order ends with.
#[derive(Debug, Clone, Copy, PartialEq, Eq, Hash, Structural)]
pub enum SortKey {
    /// By artist.
    Artist,
    /// By album.
    Album,
    /// By year.
    Year,
    /// By format.
    Format,
    /// By DR value.
    DrValue,
}

/// The stored criterion of a sort menu entry.
pub open spec fn key_of(o: SortOrder) -> SortKey {
    match o {
        SortOrder::Artist => SortKey::Artist,
        SortOrder::Album => SortKey::Album,
        SortOrder::Year => SortKey::Year,
        SortOrder::Format => SortKey::Format,
    }
}

/// The stored criteria of the sort menu's entries, in order.
pub fn sort_keys_of(orders: &Vec<SortOrder>) -> (keys: Vec<SortKey>)
    ensures
        keys@.len() == orders@.len(),
        forall|i: int| 0 <= i < orders@.len() ==> #[trigger] keys@[i] == key_of(orders@[i]),
{
    let mut keys: Vec<SortKey> = Vec::new();
    let mut i: usize = 0;
    while i < orders.len()
        invariant
            i <= orders.len(),
            keys@.len() == i,
            forall|j: int| 0 <= j < i ==> #[trigger] keys@[j] == key_of(orders@[j]),
        decreases orders.len() - i,
    {
        let k = match orders[i] {
            SortOrder::Artist => SortKey::Artist,
            SortOrder::Album => SortKey::Album,
            SortOrder::Year => SortKey::Year,
            SortOrder::Format => SortKey::Format,
        };
        keys.push(k);
        i = i + 1;
    }
    keys
}

/// Zoom level of the grid views.
#[derive(Debug, Clone, Copy, PartialEq, Eq, Hash, Structural)]
pub enum ZoomLevel {
    /// Small covers.
    Small,
    /// Medium covers (the default).
    Medium,
    /// Large covers.
    Large,
}

impl Default for ZoomLevel {
    fn default() -> (z: ZoomLevel)
        ensures
            z == ZoomLevel::Medium,
    {
        ZoomLevel::Medium
    }
}

/// Application preferences: sorting, DR badges, view mode and zoom.
#[derive(Debug)]
pub struct Settings {
    /// Defines the order in which albums and artists should be sorted.
    pub sort_orders: Vec<SortKey>,
    /// Indicates whether albums should be sorted in ascending order.
    pub sort_ascending_albums: bool,
    /// Indicates whether artists should be sorted in ascending order.
    pub sort_ascending_artists: bool,
    /// Album ids mapped to whether their DR value is the best.
    pub best_dr_albums: HashMap<i64, bool>,
    /// Indicates whether DR Value badges should be displayed.
    pub show_dr_badges: bool,
    /// Indicates whether the original release year should be used for display.
    pub use_original_year: bool,
    /// The current view mode (grid or list view).
    pub view_mode: ViewMode,
    /// The current zoom level of the grid views.
    pub current_zoom_level: ZoomLevel,
}

impl Default for Settings {
    fn default() -> (s: Settings)
        ensures
            s.sort_orders@ == seq![SortKey::Artist, SortKey::Year, SortKey::Album, SortKey::DrValue],
            s.sort_ascending_albums,
            s.sort_ascending_artists,
            s.best_dr_albums@ == Map::<i64, bool>::empty(),
            s.show_dr_badges,
            s.use_original_year,
            s.view_mode == ViewMode::Grid,
            s.current_zoom_level == ZoomLevel::Medium,
    {
        let orders = vec![SortKey::Artist, SortKey::Year, SortKey::Album, SortKey::DrValue];
        assert(orders@ =~= seq![SortKey::Artist, SortKey::Year, SortKey::Album, SortKey::DrValue]);
        Settings {
            sort_orders: orders,
            sort_ascending_albums: true,
            sort_ascending_artists: true,
            best_dr_albums: HashMap::new(),
            show_dr_badges: true,
            use_original_year: true,
            view_mode: ViewMode::Grid,
            current_zoom_level: ZoomLevel::Medium,
        }
    }
}

/// `base` extended by a relative component, as `PathBuf::push` does: a `/`
/// goes between them unless `base` is empty or already ends in one.
pub open spec fn path_join(base: Seq<char>, part: Seq<char>) -> Seq<char> {
    if base.len() == 0 {
        part
    } else if base.last() == '/' {
        base + part
    } else {
        base + seq!['/'] + part
    }
}

/// Extends a path by a relative component.
pub fn join_path(base: &str, part: &str) -> (r: String)
    ensures
        r@ == path_join(base@, part@),
{
    let mut r = String::from_str(base);
    if base.is_empty() {
        return String::from_str(part);
    }
    let last = base.get_char(base.unicode_len() - 1);
    if last != '/' {
        r.append("/");
        proof {
            reveal_strlit("/");
        }
    }
    r.append(part);
    r
}

/// The home directory: `HOME`, else `USERPROFILE`, else the current directory.
pub open spec fn home_base(home: Option<Seq<char>>, user_profile: Option<Seq<char>>) -> Seq<char> {
    match home {
        Some(h) => h,
        None => match user_profile {
            Some(u) => u,
            None => "."@,
        },
    }
}

/// The configuration directory: `<home>/.config/oxhidifi`.
pub open spec fn config_dir_path(home: Option<Seq<char>>, user_profile: Option<Seq<char>>) -> Seq<char> {
    path_join(path_join(home_base(home, user_profile), ".config"@), "oxhidifi"@)
}

/// The configuration directory for the given `HOME` and `USERPROFILE` values.
pub fn get_config_dir(home: Option<&str>, user_profile: Option<&str>) -> (r: String)
    ensures
        r@ == config_dir_path(
            match home {
                Some(h) => Some(h@),
                None => None,
            },
            match user_profile {
                Some(u) => Some(u@),
                None => None,
            },
        ),
{
    let base: &str = match home {
        Some(h) => h,
        None => match user_profile {
            Some(u) => u,
            None => ".",
        },
    };
    let dot_config = join_path(base, ".config");
    join_path(dot_config.as_str(), "oxhidifi")
}

/// The settings file inside the configuration directory: `<dir>/settings.json`.
pub fn get_settings_path(config_dir: &str) -> (r: String)
    ensures
        r@ == path_join(config_dir@, "settings.json"@),
{
    join_path(config_dir, "settings.json")
}

/// Preferences after a drag-and-drop reorder of the sort criteria: the new
/// criteria with every other preference kept.
pub fn with_sort_orders(prev: Settings, sort_orders: Vec<SortKey>) -> (s: Settings)
    ensures
        s.sort_orders == sort_orders,
        s.sort_ascending_albums == prev.sort_ascending_albums,
        s.sort_ascending_artists == prev.sort_ascending_artists,
        s.best_dr_albums == prev.best_dr_albums,
        s.show_dr_badges == prev.show_dr_badges,
        s.use_original_year == prev.use_original_year,
        s.view_mode == prev.view_mode,
        s.current_zoom_level == prev.current_zoom_level,
{
    Settings { sort_orders, ..prev }
}

} // verus!
