use whatsapp_desktop::app::App;
use whatsapp_desktop::controller::{
    chat_scroll_id, convert_rpc_connection_state, convert_rpc_message_status, convert_rpc_typing_state,
    handle_rpc_notification_at, update_at, Followup, Message,
};
use whatsapp_desktop::model::{AppState, ConnectionState, MessageStatus, TypingState, ViewState};
use whatsapp_desktop::rpc::{self, Jid, RpcClientHandle, RpcNotification, RpcRequest};

fn chat_jid() -> Jid {
    Jid::new("10@s.whatsapp.net".to_string())
}

fn rpc_message(id: &str, chat: &str, ts: i128) -> rpc::ChatMessage {
    rpc::ChatMessage {
        id: id.to_string(),
        sender: Jid::new("20@s.whatsapp.net".to_string()),
        chat: Jid::new(chat.to_string()),
        content: rpc::MessageContent::Text("hey".to_string()),
        timestamp: ts,
        is_from_me: false,
        status: rpc::MessageStatus::Delivered,
        quoted_message: None,
    }
}

#[test]
fn selecting_a_chat_scrolls_to_its_end() {
    let mut state = AppState::new();
    let r = update_at(&mut state, Message::SelectChat(chat_jid()), 0);
    assert_eq!(r, Followup::ScrollToBottom);
    assert_eq!(state.selected_chat, Some(chat_jid()));
}

#[test]
fn sending_without_a_client_fails_the_message() {
    let mut state = AppState::new();
    update_at(&mut state, Message::SelectChat(chat_jid()), 0);
    update_at(&mut state, Message::InputChanged("hello".to_string()), 0);
    let r = update_at(&mut state, Message::SendMessage, 5_000_000);
    assert_eq!(r, Followup::Nothing);
    assert_eq!(state.input_value, "");
    assert_eq!(state.error, Some("Not connected to WhatsApp".to_string()));
    let msgs = state.selected_messages();
    assert_eq!(msgs.len(), 1);
    assert_eq!(msgs[0].id, "pending_5");
    assert_eq!(msgs[0].status, MessageStatus::Failed);
    assert_eq!(msgs[0].content, "hello");
}

#[test]
fn sending_with_a_client_hands_over_the_request() {
    let mut state = AppState::new();
    let (tx, mut rx) = futures::channel::mpsc::channel(4);
    state.set_rpc_client(RpcClientHandle::from_sender(tx));
    update_at(&mut state, Message::SelectChat(chat_jid()), 0);
    update_at(&mut state, Message::InputChanged("hi".to_string()), 0);
    update_at(&mut state, Message::SendMessage, 7_000_000);
    match rx.try_next() {
        Ok(Some(RpcRequest::SendMessage { local_id, chat_jid: j, text })) => {
            assert_eq!(local_id, "pending_7");
            assert_eq!(j, chat_jid());
            assert_eq!(text, "hi");
        }
        _ => panic!("no request"),
    }
    assert_eq!(state.selected_messages()[0].status, MessageStatus::Pending);
}

#[test]
fn empty_input_sends_nothing() {
    let mut state = AppState::new();
    update_at(&mut state, Message::SelectChat(chat_jid()), 0);
    update_at(&mut state, Message::SendMessage, 0);
    assert!(state.selected_messages().is_empty());
    assert_eq!(state.error, None);
}

#[test]
fn new_messages_of_the_selected_chat_scroll_when_at_bottom() {
    let mut state = AppState::new();
    update_at(&mut state, Message::SelectChat(chat_jid()), 0);
    let r = update_at(&mut state, Message::RpcNotification(RpcNotification::MessageReceived(rpc_message("a", "10@s.whatsapp.net", 1))), 0);
    assert_eq!(r, Followup::ScrollToBottom);
    let r = update_at(&mut state, Message::RpcNotification(RpcNotification::MessageReceived(rpc_message("b", "99@s.whatsapp.net", 2))), 0);
    assert_eq!(r, Followup::Nothing);
    assert_eq!(state.selected_messages().len(), 1);
}

#[test]
fn scrolling_is_ignored_once_after_selecting() {
    let mut state = AppState::new();
    update_at(&mut state, Message::SelectChat(chat_jid()), 0);
    update_at(&mut state, Message::MessageListScrolled { at_bottom: false, near_top: false }, 0);
    assert!(state.is_scrolled_to_bottom);
    update_at(&mut state, Message::MessageListScrolled { at_bottom: false, near_top: false }, 0);
    assert!(!state.is_scrolled_to_bottom);
    let r = update_at(&mut state, Message::RpcNotification(RpcNotification::MessageReceived(rpc_message("a", "10@s.whatsapp.net", 1))), 0);
    assert_eq!(r, Followup::Nothing);
}

#[test]
fn scrolling_to_the_top_asks_for_older_history_once() {
    let mut state = AppState::new();
    let (tx, mut rx) = futures::channel::mpsc::channel(4);
    state.set_rpc_client(RpcClientHandle::from_sender(tx));
    update_at(&mut state, Message::SelectChat(chat_jid()), 0);
    update_at(&mut state, Message::RpcNotification(RpcNotification::MessageReceived(rpc_message("old", "10@s.whatsapp.net", 2_000_000_000))), 0);
    update_at(&mut state, Message::MessageListScrolled { at_bottom: true, near_top: true }, 0);
    update_at(&mut state, Message::MessageListScrolled { at_bottom: false, near_top: true }, 10);
    match rx.try_next() {
        Ok(Some(RpcRequest::FetchHistory { oldest_msg_id, oldest_msg_timestamp_ms, count, .. })) => {
            assert_eq!(oldest_msg_id, "old");
            assert_eq!(oldest_msg_timestamp_ms, 2_000);
            assert_eq!(count, 100);
        }
        _ => panic!("no history request"),
    }
    assert!(state.loading_older_messages);
    update_at(&mut state, Message::MessageListScrolled { at_bottom: false, near_top: true }, 20);
    assert!(rx.try_next().is_err());
}

#[test]
fn connection_changes_switch_the_view() {
    let mut state = AppState::new();
    handle_rpc_notification_at(&mut state, RpcNotification::ConnectionStateChanged(rpc::ConnectionState::WaitingForQr { qr_code: "Q".to_string() }), 0);
    assert_eq!(state.view, ViewState::Pairing);
    assert_eq!(state.qr_code, Some("Q".to_string()));
    handle_rpc_notification_at(&mut state, RpcNotification::ConnectionStateChanged(rpc::ConnectionState::Connected), 0);
    assert_eq!(state.view, ViewState::Chats);
    assert_eq!(state.qr_code, None);
    assert_eq!(state.connection, ConnectionState::Connected);
}

#[test]
fn service_ready_asks_for_the_client() {
    let mut state = AppState::new();
    assert_eq!(handle_rpc_notification_at(&mut state, RpcNotification::ServiceReady, 0), Followup::AttachRpcClient);
}

#[test]
fn failed_sends_show_the_error() {
    let mut state = AppState::new();
    let n = RpcNotification::MessageSendFailed { local_id: "l".to_string(), chat_jid: chat_jid(), error: "boom".to_string() };
    handle_rpc_notification_at(&mut state, n, 0);
    assert_eq!(state.error, Some("Failed to send message: boom".to_string()));
}

#[test]
fn sync_progress_and_typing_are_recorded() {
    let mut state = AppState::new();
    handle_rpc_notification_at(&mut state, RpcNotification::HistorySyncProgress { current: 3, total: 1 }, 42);
    assert!(state.sync_in_progress);
    assert_eq!(state.sync_progress, Some((3, 3)));
    handle_rpc_notification_at(&mut state, RpcNotification::HistorySyncCompleted, 43);
    assert!(!state.sync_in_progress);
    update_at(&mut state, Message::SelectChat(chat_jid()), 0);
    let n = RpcNotification::TypingIndicator { chat_jid: chat_jid(), sender_jid: Jid::new("5@s".to_string()), state: rpc::TypingState::Recording };
    assert_eq!(handle_rpc_notification_at(&mut state, n, 50), Followup::ScrollToBottom);
    assert_eq!(state.selected_typing_state(), Some(TypingState::Recording));
    update_at(&mut state, Message::Tick, 50 + 9_000_000_000);
    assert_eq!(state.selected_typing_state(), None);
}

#[test]
fn converters_keep_the_variant() {
    assert_eq!(convert_rpc_connection_state(rpc::ConnectionState::LoggedOut), ConnectionState::LoggedOut);
    assert_eq!(convert_rpc_message_status(rpc::MessageStatus::Failed), MessageStatus::Failed);
    assert_eq!(convert_rpc_typing_state(rpc::TypingState::Typing), TypingState::Typing);
    assert_eq!(chat_scroll_id(), "messages");
}

#[test]
fn window_title_follows_the_connection() {
    let mut app = App::new();
    assert_eq!(app.title(), "WhatsApp Desktop - Disconnected");
    app.state.set_connection_state(ConnectionState::Connected);
    assert_eq!(app.title(), "WhatsApp Desktop");
    app.state.set_connection_state(ConnectionState::Reconnecting);
    assert_eq!(app.title(), "WhatsApp Desktop - Reconnecting...");
}

#[test]
fn sent_messages_take_their_server_id() {
    let mut state = AppState::new();
    let (tx, _rx) = futures::channel::mpsc::channel(4);
    state.set_rpc_client(RpcClientHandle::from_sender(tx));
    update_at(&mut state, Message::SelectChat(chat_jid()), 0);
    update_at(&mut state, Message::InputChanged("hi".to_string()), 0);
    update_at(&mut state, Message::SendMessage, 9_000_000);
    let n = RpcNotification::MessageSent {
        local_id: "pending_9".to_string(),
        message_id: "SRV1".to_string(),
        chat_jid: chat_jid(),
    };
    handle_rpc_notification_at(&mut state, n, 10_000_000);
    let msgs = state.selected_messages();
    assert_eq!(msgs.len(), 1);
    assert_eq!(msgs[0].id, "SRV1");
    assert_eq!(msgs[0].status, MessageStatus::Sent);
}

#[test]
fn contact_names_rename_chats_of_the_same_user() {
    let mut state = AppState::new();
    let chat = rpc::Chat {
        jid: Jid::new("10@s.whatsapp.net".to_string()),
        name: "10".to_string(),
        last_message: None,
        last_activity: None,
        is_group: false,
        unread_count: 0,
        is_muted: false,
        is_pinned: false,
    };
    handle_rpc_notification_at(&mut state, RpcNotification::ChatsUpdated(vec![chat]), 0);
    let n = RpcNotification::ContactNameUpdated {
        jid: Jid::new("10:3@s.whatsapp.net".to_string()),
        name: "  Ana  ".to_string(),
    };
    handle_rpc_notification_at(&mut state, n, 0);
    assert_eq!(state.chats.len(), 1);
    assert_eq!(state.chats[0].name, "Ana");
}

#[test]
fn ticks_end_a_stalled_sync() {
    let mut state = AppState::new();
    handle_rpc_notification_at(&mut state, RpcNotification::HistorySyncProgress { current: 1, total: 4 }, 0);
    update_at(&mut state, Message::Tick, 5_000_000_000);
    assert!(state.sync_in_progress);
    update_at(&mut state, Message::Tick, 9_000_000_000);
    assert!(!state.sync_in_progress);
    assert_eq!(state.sync_progress, None);
}

#[test]
fn blank_contact_names_change_nothing() {
    let mut state = AppState::new();
    let chat = rpc::Chat {
        jid: Jid::new("10@s.whatsapp.net".to_string()),
        name: "Ten".to_string(),
        last_message: None,
        last_activity: None,
        is_group: false,
        unread_count: 0,
        is_muted: false,
        is_pinned: false,
    };
    handle_rpc_notification_at(&mut state, RpcNotification::ChatsUpdated(vec![chat]), 0);
    let n = RpcNotification::ContactNameUpdated { jid: chat_jid(), name: " \t\u{3000} ".to_string() };
    handle_rpc_notification_at(&mut state, n, 0);
    assert_eq!(state.chats[0].name, "Ten");
}
