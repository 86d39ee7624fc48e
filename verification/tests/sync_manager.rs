use whatsapp_desktop::model::state::sync_manager::{format_remaining, SyncManager, SyncState};
use whatsapp_desktop::rpc::Jid;

#[test]
fn test_sync_progress() {
    let mut manager = SyncManager::new();
    assert!(!manager.is_syncing());

    manager.set_progress(50, 100);
    assert!(manager.is_syncing());
    assert_eq!(manager.progress(), Some((50, 100)));

    manager.finish_sync();
    assert!(!manager.is_syncing());
}

#[test]
fn test_history_request_dedup() {
    let mut manager = SyncManager::new();
    let chat = Jid("123@s.whatsapp.net".to_string());

    assert!(manager.can_request_history(&chat, "msg1"));
    manager.record_history_request(&chat, "msg1");

    assert!(!manager.can_request_history(&chat, "msg1"));

    assert!(manager.can_request_history(&chat, "msg2"));
}

#[test]
fn sync_manager_test_cleanup() {
    let mut manager = SyncManager::with_expiry(0, 0);
    let chat = Jid("123@s.whatsapp.net".to_string());

    manager.set_progress(50, 100);
    manager.record_history_request(&chat, "msg1");

    assert!(manager.is_syncing());
    assert!(manager.is_loading_older());

    manager.cleanup();

    assert!(!manager.is_syncing());
    assert!(!manager.is_loading_older());
}

#[test]
fn same_cursor_is_allowed_again_after_three_seconds() {
    let mut manager = SyncManager::new();
    let chat = Jid("1@s.whatsapp.net".to_string());
    manager.record_history_request_at(&chat, "m", 1_000_000_000);
    assert!(!manager.can_request_history_at(&chat, "m", 3_999_999_999));
    assert!(manager.can_request_history_at(&chat, "m", 4_000_000_000));
    assert!(manager.can_request_history_at(&chat, "other", 1_000_000_000));
}

#[test]
fn remaining_time_is_written_in_minutes_and_seconds() {
    assert_eq!(format_remaining(0), "0s");
    assert_eq!(format_remaining(59), "59s");
    assert_eq!(format_remaining(61), "1m");
    assert_eq!(format_remaining(3600), "1h 0m");
    assert_eq!(format_remaining(3725), "1h 2m");
}

#[test]
fn progress_total_is_never_below_the_count() {
    let mut manager = SyncManager::new();
    manager.set_progress_at(7, 3, 0);
    assert_eq!(manager.progress(), Some((7, 7)));
    let state = SyncState::new_at(2, 9, 0);
    assert_eq!(state.current, 2);
    assert_eq!(state.total, 9);
}
