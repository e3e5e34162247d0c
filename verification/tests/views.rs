use oxhidifi::storage::sort_rules::{
    default_artists_sort, SortOrder as Direction,
};
use oxhidifi::storage::view_mode::ViewMode;
use oxhidifi::ui::application::{
    child_name, detail_failed_message, esc_returns_to_library, handle_exclusive_mode_failed,
    handle_library_data_changed, handle_search_filter_changed, handle_settings_changed,
    handle_view_options_changed, header_for, player_bar_visible, LibraryLayout, LibraryTab,
    NavigationState, PlaybackState, ViewCommand, ViewKind,
};
use oxhidifi::ui::collapse_scheduler::{narrow_layout, CollapseScheduler};
use oxhidifi::ui::components::config::{
    get_config_dir, get_settings_path, sort_keys_of, with_sort_orders, Settings, SortKey, ZoomLevel,
};
use oxhidifi::ui::components::navigation::{
    handle_esc_navigation, zoom_target, EscAction, NavState, ZoomKey, ZoomOp, ZoomTarget,
};
use oxhidifi::ui::components::player_bar::{
    clock_text, duration_label, on_state_change, play_button_icon, quality_line, PlayerArt,
    PlayerBarView,
};
use oxhidifi::ui::components::refresh::{
    inner_stack_child, initial_list_options, needs_list_rebuild, plan_refresh, scan_done_labels,
    screen_change_refreshes,
    ListOptions, RefreshTarget, SortFlags,
};
use oxhidifi::ui::components::sort_list::{
    move_row, order_icon, reconstruct_albums_sort, AlbumGridSortCriteria, AlbumGridSortItem, reconstruct_artists_sort, toggle_album_order, toggle_artist_order,
};
use oxhidifi::ui::components::sorting::{
    numbered_titles, orders_from_labels, reorder_rows, sort_icon_name, sort_order_label, SortOrder,
};

fn album_grid_rules() -> Vec<AlbumGridSortItem> {
    [
        (AlbumGridSortCriteria::Artist, Direction::Ascending),
        (AlbumGridSortCriteria::Year, Direction::Ascending),
        (AlbumGridSortCriteria::Title, Direction::Ascending),
        (AlbumGridSortCriteria::Format, Direction::Ascending),
        (AlbumGridSortCriteria::BitDepth, Direction::Descending),
        (AlbumGridSortCriteria::SampleRate, Direction::Descending),
    ]
    .into_iter()
    .map(|(criteria, order)| AlbumGridSortItem { criteria, order })
    .collect()
}

#[test]
fn dr_row_rebuilds_to_the_dr_criterion() {
    let items = vec![AlbumGridSortItem {
        criteria: AlbumGridSortCriteria::DRValue,
        order: Direction::Descending,
    }];
    assert_eq!(AlbumGridSortCriteria::DRValue.to_string(), "DR");
    assert_eq!(reconstruct_albums_sort(&strings(&["DR"]), &items), items);
    let rebuilt = reconstruct_albums_sort(&strings(&["Year", "DR", "Bogus", "Sample Rate"]), &items);
    assert_eq!(
        rebuilt,
        vec![
            AlbumGridSortItem { criteria: AlbumGridSortCriteria::Year, order: Direction::Ascending },
            AlbumGridSortItem { criteria: AlbumGridSortCriteria::DRValue, order: Direction::Descending },
            AlbumGridSortItem { criteria: AlbumGridSortCriteria::SampleRate, order: Direction::Ascending },
        ]
    );
}

fn strings(v: &[&str]) -> Vec<String> {
    v.iter().map(|s| s.to_string()).collect()
}

#[test]
fn detail_and_back_return_to_the_grid() {
    let mut nav = NavState::new("albums");
    nav.open_detail("album_detail");
    assert_eq!(nav.visible_page, "album_detail");
    assert!(nav.back_header && !nav.right_buttons);
    assert_eq!(nav.history, strings(&["albums"]));
    assert!(nav.back(), "back on a main grid refreshes");
    assert_eq!(nav.visible_page, "albums");
    assert!(nav.history.is_empty());
    assert!(!nav.back_header && nav.right_buttons);
}

#[test]
fn back_from_nested_detail_pages() {
    let mut nav = NavState::new("artists");
    nav.open_detail("artist_detail");
    nav.open_detail("album_detail");
    assert!(!nav.back(), "returning to a detail page does not refresh");
    assert_eq!(nav.visible_page, "artist_detail");
    assert!(nav.back_header);
    assert!(nav.back());
    assert_eq!(nav.visible_page, "artists");
    assert!(nav.back(), "empty history lands on the last tab");
    assert_eq!(nav.visible_page, "artists");
}

#[test]
fn tabs_clear_history_from_detail_pages() {
    let mut nav = NavState::new("albums");
    assert!(!nav.choose_tab("albums"));
    nav.open_detail("album_detail");
    assert!(nav.choose_tab("artists"));
    assert!(nav.history.is_empty());
    assert_eq!(nav.last_tab, "artists");
    assert_eq!(nav.visible_page, "artists");
    assert!(!nav.back_header && nav.right_buttons);
}

#[test]
fn escape_key_actions() {
    assert_eq!(handle_esc_navigation(true, Some("album_detail")), EscAction::CloseSearch);
    assert_eq!(handle_esc_navigation(false, Some("albums")), EscAction::Nothing);
    assert_eq!(handle_esc_navigation(false, Some("artists")), EscAction::Nothing);
    assert_eq!(handle_esc_navigation(false, Some("album_detail")), EscAction::Back);
    assert_eq!(handle_esc_navigation(false, None), EscAction::Back);
}

#[test]
fn sort_labels_and_icons() {
    assert_eq!(sort_order_label(&SortOrder::Artist), "Artist");
    assert_eq!(sort_order_label(&SortOrder::Format), "Format");
    assert_eq!("Year".parse::<SortOrder>(), Ok(SortOrder::Year));
    assert_eq!("DR".parse::<SortOrder>(), Err(()));
    assert_eq!(sort_icon_name("artists", true, false), "view-sort-ascending-symbolic");
    assert_eq!(sort_icon_name("albums", true, false), "view-sort-descending-symbolic");
    assert_eq!(sort_icon_name("album_detail", false, true), "view-sort-ascending-symbolic");
}

#[test]
fn drag_and_drop_reorders_rows() {
    let rows = strings(&["Artist", "Year", "Album", "Format"]);
    let moved = reorder_rows(&rows, "Artist", 2).expect("moved");
    assert_eq!(moved, strings(&["Year", "Album", "Artist", "Format"]));
    let moved = reorder_rows(&rows, "Format", 0).expect("moved");
    assert_eq!(moved, strings(&["Format", "Artist", "Year", "Album"]));
    let moved = reorder_rows(&rows, "Year", 3).expect("moved");
    assert_eq!(moved, strings(&["Artist", "Album", "Format", "Year"]));
    assert_eq!(reorder_rows(&rows, "Year", 1), None);
    assert_eq!(reorder_rows(&rows, "DR", 1), None);
    assert_eq!(reorder_rows(&rows, "Year", 9), None);
    let mut sorted = moved.clone();
    sorted.sort();
    let mut before = rows.clone();
    before.sort();
    assert_eq!(sorted, before, "a move keeps every row");
    assert_eq!(
        orders_from_labels(&strings(&["Year", "bogus", "Artist"])),
        vec![SortOrder::Year, SortOrder::Artist]
    );
    assert_eq!(numbered_titles(&strings(&["Artist", "Year"])), strings(&["1. Artist", "2. Year"]));
}

#[test]
fn sort_list_rebuilds_from_rows() {
    let items = album_grid_rules();
    let names: Vec<String> = items.iter().map(|i| i.criteria.to_string()).collect();
    assert_eq!(reconstruct_albums_sort(&names, &items), items);
    let moved = move_row(&names, 0, 5);
    let rebuilt = reconstruct_albums_sort(&moved, &items);
    assert_eq!(rebuilt[5].criteria, AlbumGridSortCriteria::Artist);
    assert_eq!(rebuilt[3].order, Direction::Descending);
    let artists = default_artists_sort();
    let names = strings(&["Album Count", "Nope", "Name"]);
    let rebuilt = reconstruct_artists_sort(&names, &artists);
    assert_eq!(rebuilt.len(), 2);
    assert_eq!(rebuilt[0].order, Direction::Descending);
    let mut orders: Vec<AlbumGridSortItem> = Vec::new();
    assert_eq!(toggle_album_order(&mut orders, AlbumGridSortCriteria::Year), Direction::Descending);
    assert_eq!(toggle_album_order(&mut orders, AlbumGridSortCriteria::Year), Direction::Ascending);
    assert_eq!(orders.len(), 1);
    let mut defaults = album_grid_rules();
    let n = defaults.len();
    for _ in 0..5 {
        toggle_album_order(&mut defaults, AlbumGridSortCriteria::Artist);
    }
    assert_eq!(defaults.len(), n);
    let mut artist_orders = default_artists_sort();
    let before = artist_orders[0].order;
    let first = artist_orders[0].criteria;
    let flipped = toggle_artist_order(&mut artist_orders, first);
    assert_ne!(flipped, before);
    assert_eq!(artist_orders[0].order, flipped);
    assert_eq!(artist_orders.len(), default_artists_sort().len());
    assert_eq!(order_icon(Direction::Ascending), "pan-up-symbolic");
    assert_eq!(order_icon(Direction::Descending), "pan-down-symbolic");
}

#[test]
fn settings_defaults_and_paths() {
    let s = Settings::default();
    assert_eq!(s.sort_orders, vec![SortKey::Artist, SortKey::Year, SortKey::Album, SortKey::DrValue]);
    assert_eq!(s.current_zoom_level, ZoomLevel::Medium);
    assert!(s.sort_ascending_albums && s.sort_ascending_artists);
    assert!(s.best_dr_albums.is_empty());
    assert!(s.show_dr_badges && s.use_original_year);
    assert_eq!(s.view_mode, ViewMode::Grid);
    let keys = sort_keys_of(&vec![SortOrder::Year, SortOrder::Format, SortOrder::Artist, SortOrder::Album]);
    assert_eq!(keys, vec![SortKey::Year, SortKey::Format, SortKey::Artist, SortKey::Album]);
    let s = with_sort_orders(s, vec![SortKey::Year]);
    assert_eq!(s.sort_orders, vec![SortKey::Year]);
    assert!(s.show_dr_badges);
    assert_eq!(s.current_zoom_level, ZoomLevel::Medium);
    assert_eq!(get_config_dir(Some("/home/u"), Some("C:/Users/u")), "/home/u/.config/oxhidifi");
    assert_eq!(get_config_dir(Some("/home/u/"), None), "/home/u/.config/oxhidifi");
    assert_eq!(get_config_dir(None, Some("/profile")), "/profile/.config/oxhidifi");
    assert_eq!(get_config_dir(None, None), "./.config/oxhidifi");
    assert_eq!(get_settings_path("/home/u/.config/oxhidifi"), "/home/u/.config/oxhidifi/settings.json");
}

#[test]
fn search_filter_reaches_every_view() {
    let cmds = handle_search_filter_changed(Some("abba"));
    let expected = [ViewKind::AlbumGrid, ViewKind::ArtistGrid, ViewKind::AlbumList, ViewKind::ArtistList];
    assert_eq!(cmds.len(), 4);
    for (cmd, kind) in cmds.iter().zip(expected) {
        match cmd {
            ViewCommand::Filter(k, q) => {
                assert_eq!(*k, kind);
                assert_eq!(q, "abba");
            }
            other => panic!("unexpected {other:?}"),
        }
    }
    match &handle_search_filter_changed(None)[0] {
        ViewCommand::Filter(_, q) => assert_eq!(q, ""),
        other => panic!("unexpected {other:?}"),
    }
    assert!(matches!(handle_settings_changed(false), ViewCommand::SetShowDrBadges(false)));
}

#[test]
fn library_data_reapplies_search() {
    match handle_library_data_changed(Some("x"), Some("artist_list")) {
        Some(ViewCommand::Filter(ViewKind::ArtistList, q)) => assert_eq!(q, "x"),
        other => panic!("unexpected {other:?}"),
    }
    assert!(handle_library_data_changed(None, Some("artist_list")).is_none());
    assert!(handle_library_data_changed(Some("x"), Some("other")).is_none());
}

#[test]
fn view_switch_plans() {
    let p = handle_view_options_changed(Some(LibraryTab::Albums), LibraryTab::Artists, LibraryLayout::Grid, Some("q"));
    assert_eq!(p.show, ViewKind::ArtistGrid);
    assert!(matches!(p.before, ViewCommand::Clear(ViewKind::ArtistGrid)));
    assert!(p.clear_search);
    assert!(matches!(p.after, Some(ViewCommand::Filter(ViewKind::ArtistGrid, ref q)) if q.is_empty()));
    let p = handle_view_options_changed(Some(LibraryTab::Albums), LibraryTab::Albums, LibraryLayout::List, Some("q"));
    assert_eq!(child_name(p.show), "album_list");
    assert!(matches!(p.before, ViewCommand::Filter(ViewKind::AlbumList, ref q) if q == "q"));
    assert!(!p.clear_search && p.after.is_none());
    let p = handle_view_options_changed(None, LibraryTab::Artists, LibraryLayout::List, None);
    assert_eq!(p.previous_tab, LibraryTab::Artists);
    assert!(matches!(p.before, ViewCommand::Filter(ViewKind::ArtistList, ref q) if q.is_empty()));
}

#[test]
fn window_messages_and_header() {
    assert_eq!(handle_exclusive_mode_failed("busy"), "Exclusive mode playback failed: busy");
    assert_eq!(detail_failed_message(true, "Blue"), "Failed to load album: Blue");
    assert_eq!(detail_failed_message(false, "Joni"), "Failed to load artist: Joni");
    assert!(header_for(NavigationState::Library).search_button);
    assert!(header_for(NavigationState::AlbumDetail).back_button);
    assert!(esc_returns_to_library(NavigationState::ArtistDetail));
    assert!(!esc_returns_to_library(NavigationState::Library));
    assert!(player_bar_visible(PlaybackState::Paused));
    assert!(!player_bar_visible(PlaybackState::Stopped));
}

#[test]
fn collapse_requests_coalesce() {
    let mut s = CollapseScheduler::new(false);
    assert!(s.set(true), "first request schedules");
    assert!(!s.set(false), "later requests coalesce");
    assert!(!s.set(true));
    assert_eq!(s.apply(false), Some(true));
    assert!(!s.pending);
    assert!(s.set(true));
    assert_eq!(s.apply(true), None);
    let l = narrow_layout(true);
    assert!(l.collapse && l.narrow && !l.header_switcher && l.bottom_bar);
}

#[test]
fn player_bar_texts() {
    assert_eq!(clock_text(67), "1:07");
    assert_eq!(clock_text(0), "0:00");
    assert_eq!(clock_text(3_725), "62:05");
    assert_eq!(duration_label(None), "0:00");
    assert_eq!(quality_line(Some(24), Some(96_000), Some("flac")), "24-Bit/96 kHz \u{b7} FLAC");
    assert_eq!(quality_line(Some(16), None, None), "16-Bit");
    assert_eq!(quality_line(None, Some(44_100), None), "44.1 kHz");
    assert_eq!(quality_line(None, None, Some("mp3")), "MP3");
    assert_eq!(quality_line(None, None, None), "");
    assert_eq!(play_button_icon(true), "media-playback-pause");
}

#[test]
fn refresh_plans() {
    let mut flags = SortFlags { ascending_albums: true, ascending_artists: true };
    assert_eq!(plan_refresh(None, true, &mut flags, false, false), RefreshTarget::AlbumsGrid);
    assert_eq!(flags, SortFlags { ascending_albums: false, ascending_artists: true });
    assert_eq!(plan_refresh(Some("albums"), false, &mut flags, true, false), RefreshTarget::AlbumsColumnView);
    assert_eq!(plan_refresh(Some("artists"), true, &mut flags, false, false), RefreshTarget::ArtistsGrid);
    assert_eq!(flags, SortFlags { ascending_albums: true, ascending_artists: false });
    assert_eq!(plan_refresh(Some("album_detail"), true, &mut flags, false, true), RefreshTarget::Nothing);
    let mut opts = initial_list_options(true);
    assert!(!needs_list_rebuild(&mut opts, ListOptions { show_dr_badges: true, use_original_year: true }));
    assert!(needs_list_rebuild(&mut opts, ListOptions { show_dr_badges: false, use_original_year: true }));
    assert_eq!(opts.show_dr_badges, false);
    assert!(screen_change_refreshes(false, 1920, 2560));
    assert!(!screen_change_refreshes(true, 1920, 2560));
    assert_eq!(inner_stack_child(true), "scanning_state");
    assert_eq!(scan_done_labels(Some("artists")), (false, true));
    assert_eq!(scan_done_labels(None), (false, false));
}

#[test]
fn playback_state_icons() {
    assert_eq!(on_state_change(PlaybackState::Playing), ("media-playback-pause", true));
    assert_eq!(on_state_change(PlaybackState::Paused), ("media-playback-start", false));
    assert_eq!(on_state_change(PlaybackState::Stopped), ("media-playback-start", false));
}

#[test]
fn zoom_shortcuts_reach_only_the_current_view_mode() {
    assert_eq!(
        zoom_target(ZoomKey::CtrlPlus, ViewMode::Grid, true),
        Some((ZoomTarget::GridZoom, ZoomOp::ZoomIn))
    );
    assert_eq!(
        zoom_target(ZoomKey::CtrlMinus, ViewMode::Grid, false),
        Some((ZoomTarget::GridZoom, ZoomOp::ZoomOut))
    );
    assert_eq!(
        zoom_target(ZoomKey::CtrlZero, ViewMode::Column, true),
        Some((ZoomTarget::ColumnZoom, ZoomOp::ResetZoom))
    );
    assert_eq!(zoom_target(ZoomKey::CtrlPlus, ViewMode::Column, false), None);
}

#[test]
fn player_bar_starts_hidden_and_shows_a_track() {
    let mut v = PlayerBarView::initial();
    assert!(!v.visible);
    assert_eq!(v.art, PlayerArt::MissingIcon);
    assert_eq!(v.song_title, "Song Title");
    assert_eq!(v.song_artist, "Artist");
    assert_eq!(v.album_title, "Album Title");
    assert_eq!(v.quality, "24-Bit/96 kHz");
    assert_eq!((v.time_start.as_str(), v.time_end.as_str()), ("0:00", "0:00"));
    assert_eq!(v.range_end, 100);
    v.update_with_metadata("Kind of Blue", "So What", "Miles Davis", false, Some(24), Some(96_000), Some("flac"), Some(545));
    assert!(v.visible);
    assert_eq!(v.art, PlayerArt::MissingIcon);
    assert_eq!(v.song_title, "So What");
    assert_eq!(v.song_artist, "Miles Davis");
    assert_eq!(v.album_title, "Kind of Blue");
    assert_eq!(v.quality, "24-Bit/96 kHz \u{b7} FLAC");
    assert!(!v.format_visible);
    assert_eq!(v.time_end, "9:05");
    assert_eq!(v.range_end, 545);
    v.update_with_metadata("A", "B", "C", true, None, None, None, None);
    assert_eq!(v.art, PlayerArt::Cover);
    assert_eq!(v.quality, "");
    assert_eq!(v.time_end, "0:00");
    assert_eq!(v.range_end, 100);
}
