use whatsapp_desktop::model::cache::{
    chat_messages_from_cache_at, chat_messages_to_cache, chats_from_cache, chats_to_cache, message_from_cache_at,
    sort_stably, CachedChat, CachedMessage, CachedMessageStatus,
};
use whatsapp_desktop::model::{Chat, ChatMessage, MessageStatus};
use whatsapp_desktop::rpc::Jid;
use whatsapp_desktop::view::{bubble_text, sidebar_chats, sync_label, typing_label};
use whatsapp_desktop::whatsapp;

fn msg(id: &str, ts: i128) -> ChatMessage {
    ChatMessage { id: id.to_string(), is_from_me: false, content: id.to_string(), timestamp: ts, status: MessageStatus::Read }
}

#[test]
fn sorting_by_time_keeps_equal_times_in_order() {
    let sorted = sort_stably(vec![msg("c", 3), msg("a1", 1), msg("b", 2), msg("a2", 1)]);
    let ids: Vec<&str> = sorted.iter().map(|m| m.id.as_str()).collect();
    assert_eq!(ids, vec!["a1", "a2", "b", "c"]);
}

#[test]
fn cached_chats_round_trip_without_activity() {
    let chat = Chat {
        jid: Jid::new("1@s".to_string()),
        name: "One".to_string(),
        last_message: "bye".to_string(),
        last_activity: Some(5),
        unread_count: 2,
        is_pinned: true,
    };
    let cached = chats_to_cache(&[chat]);
    assert_eq!(cached[0].jid, "1@s");
    let back = chats_from_cache(cached);
    assert_eq!(back[0].name, "One");
    assert_eq!(back[0].last_activity, None);
    assert!(back[0].is_pinned);
    assert_eq!(back[0].unread_count, 2);
}

#[test]
fn cached_messages_keep_whole_seconds_in_time_order() {
    let messages = vec![msg("late", 9_700_000_000), msg("early", 1_200_000_000)];
    let cached = chat_messages_to_cache(&messages);
    assert_eq!(cached[0].id, "early");
    assert_eq!(cached[0].timestamp_unix, 1);
    assert_eq!(cached[1].timestamp_unix, 9);
    assert_eq!(cached[1].status, CachedMessageStatus::Read);
    let back = message_from_cache_at(cached[1].clone(), 0);
    assert_eq!(back.timestamp, 9_000_000_000);
    assert_eq!(back.status, MessageStatus::Read);
}

#[test]
fn cached_messages_out_of_range_read_at_now() {
    let cached = CachedMessage {
        id: "x".to_string(),
        is_from_me: true,
        content: "c".to_string(),
        timestamp_unix: i64::MAX,
        status: CachedMessageStatus::Pending,
    };
    let back = message_from_cache_at(cached, 123);
    assert_eq!(back.timestamp, 123);
    let list = vec![
        CachedMessage { id: "b".to_string(), is_from_me: false, content: String::new(), timestamp_unix: 5, status: CachedMessageStatus::Sent },
        CachedMessage { id: "a".to_string(), is_from_me: false, content: String::new(), timestamp_unix: 4, status: CachedMessageStatus::Sent },
    ];
    let read = chat_messages_from_cache_at(list, 0);
    assert_eq!(read[0].id, "a");
    assert_eq!(read[1].timestamp, 5_000_000_000);
    let _unused = CachedChat { jid: String::new(), name: String::new(), last_message: String::new(), unread_count: 0, is_pinned: false };
}

fn chat(name: &str, pinned: bool, activity: Option<i128>) -> Chat {
    Chat {
        jid: Jid::new(format!("{}@s", name)),
        name: name.to_string(),
        last_message: String::new(),
        last_activity: activity,
        unread_count: 0,
        is_pinned: pinned,
    }
}

#[test]
fn sidebar_lists_pinned_then_recent_chats() {
    let chats = vec![
        chat("quiet", false, None),
        chat("old", false, Some(1)),
        chat("pin-old", true, Some(2)),
        chat("new", false, Some(9)),
        chat("pin-none", true, None),
    ];
    let order: Vec<String> = sidebar_chats(&chats).into_iter().map(|c| c.name).collect();
    assert_eq!(order, vec!["pin-old", "pin-none", "new", "old", "quiet"]);
}

#[test]
fn sync_banner_shows_the_total_when_known() {
    assert_eq!(sync_label(3, 10), "Syncing chats: 3/10");
    assert_eq!(sync_label(3, 0), "Syncing chats: 3");
}

#[test]
fn bubbles_mark_our_messages() {
    assert_eq!(bubble_text("hi", true, whatsapp::MessageStatus::Sent), "hi ✓");
    assert_eq!(bubble_text("hi", true, whatsapp::MessageStatus::Read), "hi ✓✓");
    assert_eq!(bubble_text("hi", true, whatsapp::MessageStatus::Failed), "hi ❌");
    assert_eq!(bubble_text("hi", false, whatsapp::MessageStatus::Failed), "hi");
    assert_eq!(typing_label(whatsapp::TypingState::Recording), "recording audio...");
    assert_eq!(typing_label(whatsapp::TypingState::Idle), "");
}

#[test]
fn saving_and_loading_messages_gives_them_back_in_time_order() {
    let messages = vec![
        msg("c", 3_000_000_000),
        msg("a1", 1_000_000_000),
        msg("b", 2_000_000_000),
        msg("a2", 1_000_000_000),
    ];
    let cached = chat_messages_to_cache(&messages);
    let back = chat_messages_from_cache_at(cached, 0);
    let expected = sort_stably(messages.clone());
    assert_eq!(back.len(), expected.len());
    for (a, b) in back.iter().zip(expected.iter()) {
        assert_eq!(a.id, b.id);
        assert_eq!(a.is_from_me, b.is_from_me);
        assert_eq!(a.content, b.content);
        assert_eq!(a.timestamp, b.timestamp);
        assert_eq!(a.status, b.status);
    }
}

#[test]
fn chrono_range_edges() {
    assert!(whatsapp_desktop::clock::from_unix_seconds(8_210_266_876_799).is_some());
    assert!(whatsapp_desktop::clock::from_unix_seconds(8_210_266_876_800).is_none());
    assert!(whatsapp_desktop::clock::from_unix_seconds(-8_334_601_228_800).is_some());
    assert!(whatsapp_desktop::clock::from_unix_seconds(-8_334_601_228_801).is_none());
    assert!(whatsapp_desktop::clock::from_millis(8_210_266_876_799_999).is_some());
    assert!(whatsapp_desktop::clock::from_millis(8_210_266_876_800_000).is_none());
    assert!(whatsapp_desktop::clock::from_millis(-8_334_601_228_800_000).is_some());
    assert!(whatsapp_desktop::clock::from_millis(-8_334_601_228_800_001).is_none());
}
