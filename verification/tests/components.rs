use oxhidifi::ui::components::album_card::{
    calculate_cover_dimensions, calculate_format_max_width, calculate_title_max_width,
    card_tooltip_text, format_tooltip, label_max_widths, year_text, CoverSizeError,
};
use oxhidifi::ui::components::cover_art::{
    plan_artwork_update, plan_badge_toggle, plan_cover_art, ArtworkFile, ArtworkUpdate,
    BadgeToggle, CoverArtBuilder, CoverContent,
};
use oxhidifi::ui::components::dr_badge::{badge_content, DRBadgeBuilder, DRBadgeLabel, DRQuality};
use oxhidifi::ui::components::empty_state::{
    empty_message, group_by_album, progress_text, scan_cancelled, should_report_progress,
    EmptyStateConfig, ProgressLabel, ScanEvent, ScanView,
};
use oxhidifi::ui::components::hifi_metadata::{
    layout_arrangement, metadata_label_texts, BitDepthDisplay, ChannelsDisplay, FormatDisplay,
    HiFiMetadataConfig, LayoutMode, SampleRateDisplay, TrackSpecs,
};
use oxhidifi::storage::formats::channel_count_label;
use oxhidifi::ui::components::play_overlay::{icon_name_for, PlayOverlayBuilder, PlayOverlayState};
use oxhidifi::ui::components::search_empty_state::{
    default_search_config, search_message, SearchEmptyStateBuilder, SearchEmptyStateConfig,
};

#[test]
fn test_dr_quality_from_value() {
    assert_eq!(DRQuality::from_dr_value("DR15"), DRQuality::Excellent);
    assert_eq!(DRQuality::from_dr_value("DR13"), DRQuality::Good);
    assert_eq!(DRQuality::from_dr_value("DR11"), DRQuality::Fair);
    assert_eq!(DRQuality::from_dr_value("DR9"), DRQuality::Poor);
    assert_eq!(DRQuality::from_dr_value("DR6"), DRQuality::VeryPoor);
    assert_eq!(DRQuality::from_dr_value("invalid"), DRQuality::Unknown);
    assert_eq!(DRQuality::from_dr_value(""), DRQuality::Unknown);
}

#[test]
fn test_dr_quality_css_classes() {
    assert_eq!(DRQuality::Excellent.css_class(), "dr-14");
    assert_eq!(DRQuality::Good.css_class(), "dr-12");
    assert_eq!(DRQuality::Fair.css_class(), "dr-10");
    assert_eq!(DRQuality::Poor.css_class(), "dr-08");
    assert_eq!(DRQuality::VeryPoor.css_class(), "dr-00");
    assert_eq!(DRQuality::Unknown.css_class(), "dr-na");
}

#[test]
fn test_dr_badge_builder() {
    let badge = DRBadgeBuilder::default()
        .dr_value("DR12".to_string())
        .show_label(false)
        .content();
    assert_eq!(badge.display_text, "12");
    assert_eq!(badge.quality, DRQuality::Good);
}

#[test]
fn test_dr_badge_update() {
    let badge = badge_content(Some("DR8"), true);
    assert_eq!(badge.quality, DRQuality::Poor);
    assert_eq!(badge.display_text, "DR08");
    assert_eq!(badge.css_class, "dr-08");
    let badge = badge_content(Some("DR14"), true);
    assert_eq!(badge.quality, DRQuality::Excellent);
    assert_eq!(badge.display_text, "DR14");
}

#[test]
fn dr_badge_edge_values() {
    let na = badge_content(None, true);
    assert_eq!((na.display_text.as_str(), na.css_class.as_str()), ("DR N/A", "dr-na"));
    assert_eq!(na.quality, DRQuality::Unknown);
    let na = badge_content(Some("N/A"), false);
    assert_eq!(na.display_text, "N/A");
    let big = badge_content(Some("DR300"), true);
    assert_eq!((big.display_text.as_str(), big.css_class.as_str()), ("DR N/A", "dr-na"));
    assert_eq!(big.quality, DRQuality::Excellent);
    let trailing = badge_content(Some("DR12x"), true);
    assert_eq!(trailing.quality, DRQuality::Unknown);
    assert_eq!(trailing.css_class, "dr-na");
    assert_eq!(DRQuality::from_dr_value("DR 7"), DRQuality::VeryPoor);
    assert_eq!(DRQuality::Good.aria_label(), "Good dynamic range quality");
    assert_eq!(DRQuality::Unknown.aria_label(), "Unknown dynamic range quality");
}

#[test]
fn test_cover_art_builder() {
    let plan = CoverArtBuilder::default()
        .artwork_path(Some("/path/to/artwork.jpg".to_string()))
        .dr_value(Some("DR12".to_string()))
        .show_dr_badge(true)
        .dimensions(150, 150)
        .plan(ArtworkFile::Readable);
    assert_eq!(plan.width, 150);
    assert_eq!(plan.height, 150);
    assert_eq!(plan.dr_value, "DR12");
    let badge = plan.badge.expect("badge shown");
    assert_eq!(badge.display_text, "12");
    match plan.content {
        CoverContent::Artwork { path, tooltip } => {
            assert_eq!(path, "/path/to/artwork.jpg");
            assert_eq!(tooltip, "Album artwork for /path/to/artwork.jpg");
        }
        other => panic!("unexpected {other:?}"),
    }
}

#[test]
fn test_cover_art_default() {
    let plan = plan_cover_art(None, ArtworkFile::Missing, None, None, false, 200, 200);
    assert!(matches!(plan.content, CoverContent::Placeholder));
    assert!(plan.badge.is_none());
    assert_eq!(plan.dr_value, "N/A");
    assert_eq!((plan.width, plan.height), (200, 200));
}

#[test]
fn cover_art_priorities() {
    let icon = plan_cover_art(
        Some("/missing.jpg".to_string()),
        ArtworkFile::Missing,
        Some("avatar-default-symbolic".to_string()),
        None,
        true,
        100,
        120,
    );
    match icon.content {
        CoverContent::Icon { name, pixel_size } => {
            assert_eq!(name, "avatar-default-symbolic");
            assert_eq!(pixel_size, 120);
        }
        other => panic!("unexpected {other:?}"),
    }
    assert_eq!(icon.badge.expect("badge").display_text, "N/A");
    let empty = plan_cover_art(
        Some("/x.jpg".to_string()),
        ArtworkFile::Unreadable,
        Some("icon".to_string()),
        None,
        false,
        10,
        10,
    );
    assert!(matches!(empty.content, CoverContent::Empty));
}

#[test]
fn test_cover_art_update_artwork() {
    assert!(matches!(
        plan_artwork_update(true, false, Some("/non/existent/path.jpg".to_string()), ArtworkFile::Missing),
        ArtworkUpdate::ClearToDefault
    ));
    assert!(matches!(
        plan_artwork_update(false, true, Some("/a.jpg".to_string()), ArtworkFile::Readable),
        ArtworkUpdate::ReplaceIconWithFile { .. }
    ));
    assert!(matches!(
        plan_artwork_update(false, true, None, ArtworkFile::Missing),
        ArtworkUpdate::Keep
    ));
    match plan_artwork_update(true, false, Some("/a.jpg".to_string()), ArtworkFile::Readable) {
        ArtworkUpdate::ShowFile { path, tooltip } => {
            assert_eq!(path, "/a.jpg");
            assert_eq!(tooltip, "Album artwork for /a.jpg");
        }
        other => panic!("unexpected {other:?}"),
    }
}

#[test]
fn badge_toggle_plans() {
    match plan_badge_toggle(true, false, "DR9") {
        BadgeToggle::Create(b) => {
            assert_eq!(b.display_text, "09");
            assert_eq!(b.quality, DRQuality::Poor);
        }
        other => panic!("unexpected {other:?}"),
    }
    assert!(matches!(plan_badge_toggle(true, true, "DR9"), BadgeToggle::ShowExisting));
    assert!(matches!(plan_badge_toggle(false, true, "DR9"), BadgeToggle::Remove));
    assert!(matches!(plan_badge_toggle(false, false, "DR9"), BadgeToggle::Keep));
}

#[test]
fn test_play_overlay_builder() {
    let overlay = PlayOverlayBuilder::default()
        .is_playing(true)
        .show_on_hover(false)
        .build();
    assert!(overlay.is_playing);
    assert!(!overlay.show_on_hover);
    assert_eq!(icon_name_for(overlay.is_playing), "media-playback-pause-symbolic");
}

#[test]
fn test_play_overlay_default() {
    let overlay = PlayOverlayState::default_state();
    assert!(!overlay.is_playing);
    assert!(overlay.show_on_hover);
    assert_eq!(icon_name_for(overlay.is_playing), "media-playback-start-symbolic");
}

#[test]
fn test_play_overlay_set_playing() {
    let mut overlay = PlayOverlayState::new(false, false);
    assert!(!overlay.is_playing);
    assert!(overlay.set_playing(true));
    assert!(overlay.is_playing());
    assert_eq!(icon_name_for(overlay.is_playing), "media-playback-pause-symbolic");
    assert!(!overlay.set_playing(true), "idempotent update changes nothing");
    assert_eq!(overlay.hover_visibility(true), None);
    assert_eq!(PlayOverlayState::default_state().hover_visibility(true), Some(true));
}

#[test]
fn test_search_empty_state_config() {
    let album_config = SearchEmptyStateConfig {
        is_album_view: true,
    };
    let artist_config = SearchEmptyStateConfig {
        is_album_view: false,
    };
    assert!(album_config.is_album_view);
    assert!(!artist_config.is_album_view);
}

#[test]
fn test_search_empty_state_default() {
    assert!(default_search_config().is_album_view);
}

#[test]
fn test_search_empty_state_builder() {
    let config = SearchEmptyStateBuilder::default().is_album_view(false).build();
    assert!(!config.is_album_view);
}

#[test]
fn search_messages() {
    let albums = SearchEmptyStateConfig { is_album_view: true };
    let artists = SearchEmptyStateConfig { is_album_view: false };
    assert_eq!(
        search_message(albums, ""),
        ("No albums available".to_string(), "Try searching for something")
    );
    assert_eq!(
        search_message(artists, "abba"),
        (
            "No artists found for \"abba\"".to_string(),
            "Try searching for something else"
        )
    );
}

#[test]
fn empty_state_config() {
    let album_config = EmptyStateConfig {
        is_album_view: true,
    };
    let artist_config = EmptyStateConfig {
        is_album_view: false,
    };
    assert!(album_config.is_album_view);
    assert!(!artist_config.is_album_view);
    assert_eq!(empty_message(album_config), "No albums found");
    assert_eq!(empty_message(artist_config), "No artists found");
}

fn idle_view() -> ScanView {
    ScanView {
        widget: true,
        add_button: true,
        message: true,
        description: true,
        spinner: false,
        progress_bar: false,
        progress_label: false,
        cancel_button: false,
        is_scanning: false,
        has_cancel_token: false,
    }
}

#[test]
fn new_empty_state_starts_idle_with_progress_hidden() {
    let v = ScanView::initial();
    assert_eq!(v, idle_view());
    assert!(v.widget && v.message && v.description && v.add_button);
    assert!(!v.spinner && !v.progress_bar && !v.progress_label && !v.cancel_button);
    assert!(!v.is_scanning && !v.has_cancel_token);
}

#[test]
fn cancel_token_is_created_once_and_dropped_on_stop() {
    let mut v = ScanView::initial();
    assert!(!v.stop_scanner_event_listener());
    assert!(v.ensure_cancel_token());
    assert!(!v.ensure_cancel_token());
    assert!(v.has_cancel_token);
    assert!(v.stop_scanner_event_listener());
    assert!(!v.has_cancel_token);
    assert!(!v.stop_scanner_event_listener());
}

#[test]
fn scan_events_drive_the_view() {
    let mut v = idle_view();
    match v.on_event(ScanEvent::ScanningChanged(true)) {
        ProgressLabel::Text(t) => assert_eq!(t, "Scanning library..."),
        ProgressLabel::Unchanged => panic!("label must be set"),
    }
    assert!(v.is_scanning && v.spinner && v.cancel_button && !v.add_button);
    match v.on_event(ScanEvent::Progress { current: 20, total: 45 }) {
        ProgressLabel::Text(t) => assert_eq!(t, "Processing: 20/45 albums"),
        ProgressLabel::Unchanged => panic!("label must be set"),
    }
    assert!(matches!(v.on_event(ScanEvent::DataChanged), ProgressLabel::Unchanged));
    assert!(!v.is_scanning && !v.spinner && !v.progress_bar);
    v.on_library_state(false);
    assert!(!v.widget);
    v.on_library_state(true);
    assert_eq!(v, idle_view());
}

#[test]
fn progress_reported_every_twenty_and_at_the_end() {
    let reported: Vec<usize> = (1..=45).filter(|&c| should_report_progress(c, 45)).collect();
    assert_eq!(reported, vec![20, 40, 45]);
    assert_eq!(progress_text(3, 7), "Processing: 3/7 albums");
    assert!(scan_cancelled(true, None));
    assert!(scan_cancelled(false, Some(false)));
    assert!(!scan_cancelled(false, Some(true)));
    assert!(!scan_cancelled(false, None));
}

#[test]
fn files_group_by_album_directory() {
    let files: Vec<String> = vec![
        "/m/a/1.flac".to_string(),
        "/m/b/1.flac".to_string(),
        "/m/a/2.flac".to_string(),
        "/".to_string(),
    ];
    let g = group_by_album(&files);
    assert_eq!(g.dirs, vec!["/m/a".to_string(), "/m/b".to_string()]);
    assert_eq!(
        g.files,
        vec![
            vec!["/m/a/1.flac".to_string(), "/m/a/2.flac".to_string()],
            vec!["/m/b/1.flac".to_string()],
        ]
    );
}

#[test]
fn files_in_one_directory_spelled_differently_form_one_album() {
    let files: Vec<String> = vec![
        "a//b/x.flac".to_string(),
        "a/b/y.flac".to_string(),
        "a/./b/z.flac".to_string(),
        "a/c/w.flac".to_string(),
    ];
    let g = group_by_album(&files);
    assert_eq!(g.dirs, vec!["a//b".to_string(), "a/c".to_string()]);
    assert_eq!(
        g.files,
        vec![
            vec!["a//b/x.flac".to_string(), "a/b/y.flac".to_string(), "a/./b/z.flac".to_string()],
            vec!["a/c/w.flac".to_string()],
        ]
    );
}

fn track() -> TrackSpecs {
    TrackSpecs {
        format: "FLAC".to_string(),
        sample_rate: 96_000,
        bits_per_sample: 24,
        channels: 2,
    }
}

#[test]
fn test_hifi_metadata_builder() {
    let config = HiFiMetadataConfig {
        show_format: FormatDisplay::Show,
        show_sample_rate: SampleRateDisplay::Show,
        show_bit_depth: BitDepthDisplay::Show,
        show_channels: ChannelsDisplay::Show,
        layout: LayoutMode::Compact,
    };
    let labels = metadata_label_texts(Some(&track()), config);
    assert_eq!(labels.len(), 4);
    assert_eq!(labels, vec!["FLAC ", "96 kHz", "24-bit ", "Stereo"]);
    assert_eq!(layout_arrangement(config.layout), (true, 8));
}

#[test]
fn test_hifi_metadata_default() {
    let config = HiFiMetadataConfig::default();
    assert!(metadata_label_texts(None, config).is_empty());
    assert_eq!(config.layout, LayoutMode::Expanded);
    assert_eq!(layout_arrangement(config.layout), (false, 2));
    assert_eq!(FormatDisplay::default(), FormatDisplay::Hide);
}

#[test]
fn test_hifi_metadata_update_track() {
    let mut t = track();
    t.sample_rate = 44_100;
    let labels = metadata_label_texts(Some(&t), HiFiMetadataConfig::default());
    assert_eq!(labels, vec!["FLAC ", "44.1 kHz", "24-bit ", "Stereo"]);
    t.sample_rate = 800;
    t.channels = 6;
    let only = HiFiMetadataConfig {
        show_format: FormatDisplay::Hide,
        show_sample_rate: SampleRateDisplay::Show,
        show_bit_depth: BitDepthDisplay::Hide,
        show_channels: ChannelsDisplay::Show,
        layout: LayoutMode::Expanded,
    };
    assert_eq!(metadata_label_texts(Some(&t), only), vec!["800 Hz", "6 ch"]);
}

#[test]
fn test_channels_display() {
    assert_eq!(channel_count_label(1), "Mono");
    assert_eq!(channel_count_label(2), "Stereo");
    assert_eq!(channel_count_label(5), "5 ch");
}

#[test]
fn album_card_geometry() {
    assert_eq!(calculate_cover_dimensions(true, None), Ok((120, 120)));
    assert_eq!(calculate_cover_dimensions(false, None), Ok((180, 180)));
    assert_eq!(calculate_cover_dimensions(false, Some(300)), Ok((300, 300)));
    assert_eq!(
        calculate_cover_dimensions(false, Some(u32::MAX)),
        Err(CoverSizeError { cover_width: u32::MAX })
    );
    assert_eq!(calculate_title_max_width(180), 16);
    assert_eq!(calculate_title_max_width(50), 8);
    assert_eq!(calculate_title_max_width(-40), 8);
    assert_eq!(calculate_format_max_width(180), 8);
    assert_eq!(calculate_format_max_width(400), 19);
    assert_eq!(label_max_widths(180), Ok((16, 16, 8)));
    assert_eq!(label_max_widths(16), Ok((8, 8, 8)));
    assert_eq!(label_max_widths(0), Ok((8, 8, 8)));
    assert_eq!(label_max_widths(10), Ok((8, 8, 8)));
    assert_eq!(label_max_widths(u32::MAX), Ok((429_496_727, 429_496_727, 214_748_363)));
}

#[test]
fn album_card_texts() {
    assert_eq!(year_text(Some(2023)), "2023");
    assert_eq!(year_text(None), "");
    assert_eq!(card_tooltip_text("Kind of Blue", "Miles Davis", Some(1959)), "Kind of Blue by Miles Davis (1959)");
    assert_eq!(card_tooltip_text("X", "Y", None), "X by Y (0)");
    assert_eq!(format_tooltip(""), None);
    assert_eq!(format_tooltip("FLAC 24/96"), Some("FLAC 24/96".to_string()));
}

#[test]
fn dr_levels_follow_the_number_and_never_drop() {
    let expected = |n: u32| {
        if n >= 14 {
            DRQuality::Excellent
        } else if n >= 12 {
            DRQuality::Good
        } else if n >= 10 {
            DRQuality::Fair
        } else if n >= 8 {
            DRQuality::Poor
        } else {
            DRQuality::VeryPoor
        }
    };
    for n in 0..40u32 {
        assert_eq!(DRQuality::from_dr_value(&format!("DR{n}")), expected(n));
    }
    assert_eq!(DRQuality::from_dr_value("DR2147483647"), DRQuality::Excellent);
    assert_eq!(DRQuality::from_dr_value("DR7"), DRQuality::VeryPoor);
    assert_eq!(DRQuality::from_dr_value("DR8"), DRQuality::Poor);
}

#[test]
fn updating_a_badge_value_restyles_its_label() {
    let mut label = DRBadgeLabel {
        quality: DRQuality::Unknown,
        display_text: "DR N/A".to_string(),
        tooltip: String::new(),
        css_classes: vec!["old".to_string()],
    };
    label.update_dr_value(Some("DR9".to_string()));
    assert_eq!(label.quality, DRQuality::Poor);
    assert_eq!(label.display_text, "DR09");
    assert_eq!(label.tooltip, "Poor dynamic range quality");
    assert_eq!(label.css_classes, vec!["dr-badge-label", "dr-badge-label-grid", "dr-09"]);
    label.update_dr_value(None);
    assert_eq!(label.quality, DRQuality::Unknown);
    assert_eq!(label.display_text, "DR N/A");
    assert_eq!(label.tooltip, "Unknown dynamic range quality");
    assert_eq!(label.css_classes, vec!["dr-badge-label", "dr-badge-label-grid", "dr-na"]);
    label.update_dr_value(Some("DR300".to_string()));
    assert_eq!(label.quality, DRQuality::Excellent);
    assert_eq!(label.display_text, "DR N/A");
}
