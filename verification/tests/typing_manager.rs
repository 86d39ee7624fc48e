use whatsapp_desktop::model::state::typing_manager::{TypingManager, TypingState};
use whatsapp_desktop::rpc::Jid;

#[test]
fn test_typing_state_default() {
    let state: TypingState = Default::default();
    assert_eq!(state, TypingState::Idle);
}

#[test]
fn test_set_and_get_typing() {
    let mut manager = TypingManager::new();
    let chat = Jid("123@s.whatsapp.net".to_string());
    let user = Jid("456@s.whatsapp.net".to_string());

    manager.set_typing(&chat, &user, TypingState::Typing);
    assert!(manager.is_typing(&chat));
    assert!(!manager.is_recording(&chat));
}

#[test]
fn test_recording_priority() {
    let mut manager = TypingManager::new();
    let chat = Jid("123@s.whatsapp.net".to_string());
    let user1 = Jid("456@s.whatsapp.net".to_string());
    let user2 = Jid("789@s.whatsapp.net".to_string());

    manager.set_typing(&chat, &user1, TypingState::Typing);
    manager.set_typing(&chat, &user2, TypingState::Recording);

    assert!(manager.is_recording(&chat));
    assert_eq!(manager.get_state(&chat), TypingState::Recording);
}

#[test]
fn typing_manager_test_cleanup() {
    let mut manager = TypingManager::with_expiry(0);
    let chat = Jid("123@s.whatsapp.net".to_string());
    let user = Jid("456@s.whatsapp.net".to_string());

    manager.set_typing(&chat, &user, TypingState::Typing);
    assert!(manager.has_active_indicators());

    manager.cleanup();
    assert!(!manager.has_active_indicators());
}

#[test]
fn test_clear_chat() {
    let mut manager = TypingManager::new();
    let chat1 = Jid("123@s.whatsapp.net".to_string());
    let chat2 = Jid("789@g.us".to_string());
    let user = Jid("456@s.whatsapp.net".to_string());

    manager.set_typing(&chat1, &user, TypingState::Typing);
    manager.set_typing(&chat2, &user, TypingState::Typing);

    manager.clear_chat(&chat1);

    assert!(!manager.is_typing(&chat1));
    assert!(manager.is_typing(&chat2));
}

#[test]
fn set_typing_is_read_back_for_the_sender() {
    let mut manager = TypingManager::new();
    let chat = Jid("1@s.whatsapp.net".to_string());
    let user = Jid("2@s.whatsapp.net".to_string());
    manager.set_typing_at(&chat, &user, TypingState::Recording, 1_000);
    let users = manager.get_typing_users(&chat);
    assert_eq!(users.len(), 1);
    assert_eq!(users[0].0, "2@s.whatsapp.net");
    assert_eq!(users[0].1, TypingState::Recording);
    assert_eq!(manager.get_state(&chat), TypingState::Recording);
}

#[test]
fn idle_senders_do_not_count_as_typing() {
    let mut manager = TypingManager::new();
    let chat = Jid("1@s.whatsapp.net".to_string());
    let user = Jid("2@s.whatsapp.net".to_string());
    manager.set_typing_at(&chat, &user, TypingState::Idle, 1_000);
    assert_eq!(manager.get_state(&chat), TypingState::Idle);
    assert!(manager.get_typing_users(&chat).is_empty());
}

#[test]
fn cleanup_keeps_fresh_indicators_and_drops_old_ones() {
    let mut manager = TypingManager::new();
    let chat = Jid("1@s.whatsapp.net".to_string());
    let old_user = Jid("2@s.whatsapp.net".to_string());
    let new_user = Jid("3@s.whatsapp.net".to_string());
    manager.set_typing_at(&chat, &old_user, TypingState::Typing, 0);
    manager.set_typing_at(&chat, &new_user, TypingState::Typing, 5_000_000_000);
    manager.cleanup_at(9_000_000_000);
    let users = manager.get_typing_users(&chat);
    assert_eq!(users.len(), 1);
    assert_eq!(users[0].0, "3@s.whatsapp.net");
    manager.cleanup_at(13_000_000_000);
    assert!(!manager.has_active_indicators());
}

#[test]
fn clearing_one_sender_keeps_the_others() {
    let mut manager = TypingManager::new();
    let chat = Jid("1@s.whatsapp.net".to_string());
    let a = Jid("2@s.whatsapp.net".to_string());
    let b = Jid("3@s.whatsapp.net".to_string());
    manager.set_typing_at(&chat, &a, TypingState::Recording, 10);
    manager.set_typing_at(&chat, &b, TypingState::Typing, 10);
    manager.clear_user(&chat, &a);
    assert_eq!(manager.get_state(&chat), TypingState::Typing);
}

#[test]
fn clearing_the_last_sender_leaves_nothing_active() {
    let mut manager = TypingManager::new();
    let chat = Jid("123@s.whatsapp.net".to_string());
    let user = Jid("456@s.whatsapp.net".to_string());
    manager.set_typing(&chat, &user, TypingState::Typing);
    manager.clear_user(&chat, &user);
    assert!(!manager.has_active_indicators());
    assert_eq!(manager.active_count(), 0);
}
