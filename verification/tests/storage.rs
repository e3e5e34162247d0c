use oxhidifi::storage::active_tab::ActiveTab;
use oxhidifi::storage::catalog::{FieldUpdate, NewQueueEntry, QueueContext, QueueEntry};
use oxhidifi::storage::config::corrupt_recovery::dir_error;
use oxhidifi::storage::database::disk_sync::{debounce_step, DebounceStep, SaveWriter};
use oxhidifi::storage::database::music_dirs::{library_dir_text, normalized_dir};
use oxhidifi::storage::database::queue::{plan_append, stored_position, MAX_QUEUE_ENTRIES};
use oxhidifi::storage::view_mode::ViewMode::{Column, Grid};
use oxhidifi::storage::StorageError;
use oxhidifi::storage::database::connection_policy;

#[test]
fn new_queue_entry_fields_and_debug() {
    let entry = NewQueueEntry {
        track_id: 42,
        position: 3,
        context_type: Some("album".to_string()),
        context_id: Some(7),
    };
    assert_eq!(entry.track_id, 42, "track id must round-trip");
    assert_eq!(entry.position, 3, "position must round-trip");
    assert_eq!(
        entry.context_type.as_deref(),
        Some("album"),
        "context type must round-trip"
    );
    assert_eq!(entry.context_id, Some(7), "context id must round-trip");
    let cloned = entry.clone();
    assert_eq!(cloned.track_id, 42, "clone must preserve track id");
    assert!(
        format!("{entry:?}").contains("42"),
        "debug must include track id"
    );
}

#[test]
fn queue_context_variants_copy_and_debug() {
    let album = QueueContext::Album(1);
    let artist = QueueContext::Artist(2);
    let manual = QueueContext::Manual;
    let copied: QueueContext = album;
    assert!(
        matches!(copied, QueueContext::Album(1)),
        "copied album context must match"
    );
    assert!(matches!(album, QueueContext::Album(1)), "album context must survive copy");
    assert!(matches!(artist, QueueContext::Artist(2)), "artist context must match");
    assert!(matches!(manual, QueueContext::Manual), "manual context must match");
    assert!(
        format!("{album:?}").contains('1'),
        "album debug must include id"
    );
    assert!(
        format!("{artist:?}").contains('2'),
        "artist debug must include id"
    );
    assert!(
        format!("{manual:?}").contains("Manual"),
        "manual debug must include variant"
    );
}

#[test]
fn queue_entry_fields_and_debug() {
    let entry = QueueEntry {
        id: 1,
        track_id: 2,
        position: 0,
        context_type: None,
        context_id: None,
        added_at: "2024-01-01T00:00:00Z".to_string(),
    };
    assert_eq!(entry.id, 1, "id must round-trip");
    assert_eq!(entry.track_id, 2, "track id must round-trip");
    assert_eq!(entry.position, 0, "position must round-trip");
    assert_eq!(entry.context_type, None, "context type must round-trip");
    assert_eq!(entry.context_id, None, "context id must round-trip");
    assert_eq!(
        entry.added_at, "2024-01-01T00:00:00Z",
        "added_at must round-trip"
    );
    let cloned = entry.clone();
    assert_eq!(cloned.id, 1, "clone must preserve id");
    assert!(
        format!("{entry:?}").contains('2'),
        "debug must include track id"
    );
}

#[test]
fn view_mode_icons_and_tooltips() {
    assert_eq!(Grid.icon_name(), "view-grid-symbolic");
    assert_eq!(Column.icon_name(), "view-list-symbolic");
    assert_eq!(Grid.tooltip(), "Switch to column view");
    assert_eq!(Column.tooltip(), "Switch to grid view");
}

#[test]
fn view_mode_toggle_is_an_involution() {
    assert_eq!(Grid.toggle(), Column);
    assert_eq!(Column.toggle(), Grid);
    assert_eq!(Grid.toggle().toggle(), Grid);
}

#[test]
fn active_tab_values_differ() {
    assert_ne!(ActiveTab::Albums, ActiveTab::Artists);
}

#[test]
fn storage_error_messages() {
    assert_eq!(StorageError::Database("x".to_string()).message(), "Database error: x");
    assert_eq!(StorageError::NotFound("a".to_string()).message(), "Entity not found: a");
    assert_eq!(StorageError::Duplicate("d".to_string()).message(), "Duplicate entry: d");
    assert_eq!(
        StorageError::Serialization("s".to_string()).message(),
        "Serialization error: s"
    );
    assert_eq!(StorageError::InvalidPath("/p".to_string()).message(), "Invalid path: /p");
    assert_eq!(
        StorageError::QueueFull { max: 100_000 }.message(),
        "Queue is full (max 100000 entries)"
    );
}

#[test]
fn dir_error_names_directory_and_cause() {
    match dir_error("/home/u/.config/oxhidifi", "permission denied") {
        StorageError::Database(m) => assert_eq!(m, "/home/u/.config/oxhidifi: permission denied"),
        other => panic!("unexpected {other:?}"),
    }
}

#[test]
fn append_plans_next_position_and_context() {
    let e = plan_append(0, Some(-1), 9, Some(QueueContext::Album(4))).unwrap();
    assert_eq!(e.position, 0);
    assert_eq!(e.track_id, 9);
    assert_eq!(e.context_type.as_deref(), Some("album"));
    assert_eq!(e.context_id, Some(4));
    let e = plan_append(5, Some(7), 1, Some(QueueContext::Artist(3))).unwrap();
    assert_eq!(e.position, 8);
    assert_eq!(e.context_type.as_deref(), Some("artist"));
    let e = plan_append(5, None, 1, Some(QueueContext::Manual)).unwrap();
    assert_eq!(e.position, 0);
    assert_eq!(e.context_type, None);
    assert_eq!(e.context_id, None);
    let e = plan_append(5, Some(i32::MAX), 1, None).unwrap();
    assert_eq!(e.position, i32::MAX);
}

#[test]
fn append_refused_when_queue_full() {
    match plan_append(MAX_QUEUE_ENTRIES, Some(3), 1, None) {
        Err(StorageError::QueueFull { max }) => assert_eq!(max, 100_000),
        other => panic!("expected a full queue, got {other:?}"),
    }
    assert!(plan_append(MAX_QUEUE_ENTRIES - 1, Some(3), 1, None).is_ok());
}

#[test]
fn stored_positions_reinterpret_bits() {
    assert_eq!(stored_position(5), 5);
    assert_eq!(stored_position(u32::MAX), -1);
    assert_eq!(stored_position(0x8000_0000), i32::MIN);
    for p in [0u32, 1, 77, 0x7fff_ffff, 0x8000_0001, 0xdead_beef] {
        assert_eq!(stored_position(p), p as i32);
    }
}

#[test]
fn library_dirs_are_normalized() {
    assert_eq!(normalized_dir("/music/"), "/music");
    assert_eq!(normalized_dir("/music///"), "/music");
    assert_eq!(normalized_dir("/music"), "/music");
    assert_eq!(normalized_dir("/"), "");
    match library_dir_text(None, "/bad\u{fffd}".to_string()) {
        Err(StorageError::InvalidPath(p)) => assert_eq!(p, "/bad\u{fffd}"),
        other => panic!("unexpected {other:?}"),
    }
    assert_eq!(library_dir_text(Some("/m".to_string()), "/m".to_string()).unwrap(), "/m");
}

#[test]
fn field_updates_say_what_changes() {
    let skip: FieldUpdate<i32> = FieldUpdate::default();
    assert_eq!(skip.column_change(), None);
    assert_eq!(FieldUpdate::<i32>::SetNull.column_change(), Some(None));
    assert_eq!(FieldUpdate::SetTo(3).column_change(), Some(Some(&3)));
}

#[test]
fn debounce_waits_then_lets_latest_write() {
    assert_eq!(debounce_step(1, 1, 30_000_000), DebounceStep::Wait(70_000_000));
    assert_eq!(debounce_step(1, 1, 100_000_000), DebounceStep::Wait(0));
    assert_eq!(debounce_step(1, 1, 100_000_001), DebounceStep::Proceed);
    assert_eq!(debounce_step(1, 2, 150_000_000), DebounceStep::Superseded);
}

#[test]
fn writer_serializes_and_drains() {
    let mut w = SaveWriter::new();
    assert_eq!(w.next_request(), 0);
    assert_eq!(w.next_request(), 1);
    assert!(w.begin_write(), "first writer starts");
    assert!(!w.begin_write(), "second writer waits");
    assert!(w.pending);
    assert!(w.finish_write(), "a pending request runs again");
    assert!(!w.in_flight && !w.pending);
    assert!(w.begin_write());
    assert!(!w.finish_write(), "nothing pending: the drain ends");
    let mut wrap = SaveWriter { next_seq: u64::MAX, in_flight: false, pending: false };
    assert_eq!(wrap.next_request(), u64::MAX);
    assert_eq!(wrap.next_seq, 0);
}

#[test]
fn errors_take_context() {
    let inner = StorageError::Serialization("bad json".to_string());
    match oxhidifi::storage::with_context("Failed to save view mode", &inner) {
        StorageError::Database(m) => {
            assert_eq!(m, "Failed to save view mode: Serialization error: bad json")
        }
        other => panic!("unexpected {other:?}"),
    }
}

#[test]
fn connection_policies() {
    let mem = connection_policy(":memory:");
    assert!(mem.in_memory && mem.max_connections == 1 && !mem.write_ahead_log);
    let file = connection_policy("/var/lib/library.db");
    assert!(!file.in_memory && file.max_connections == 8 && file.write_ahead_log);
}
