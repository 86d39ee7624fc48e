use whatsapp_desktop::rpc::service::content::{AudioFields, DocumentFields, ExtendedTextFields, MediaFields, MessageFields};
use whatsapp_desktop::rpc::service::events::{HistoryItem, IncomingMessage, JoinedConversation, ReceiptKind};
use whatsapp_desktop::rpc::service::{
    client_action, command_for_request, convert_chat, convert_chat_message, convert_event_to_notification,
    convert_jid, convert_message_status, handle_internal_event_at, handle_request, parse_message_content,
    restored_message_at, split_jid, ClientAction, ServiceEffect, ServiceEvent, SyncCounters,
};
use whatsapp_desktop::rpc::{self, RpcNotification, RpcRequest};
use whatsapp_desktop::whatsapp::storage::{StorageCommand, StoredMessage};
use whatsapp_desktop::whatsapp::{self, Connection, MessageContent, MessageStatus, WhatsAppCommand, WhatsAppEvent};

fn empty_fields() -> MessageFields {
    MessageFields {
        conversation: None,
        extended_text_message: None,
        image_message: None,
        video_message: None,
        audio_message: None,
        document_message: None,
        sticker_message: None,
        location_message: None,
        contact_message: None,
        view_once_message: None,
        view_once_message_v2: None,
        ephemeral_message: None,
        edited_message: None,
    }
}

fn connection() -> (Connection, futures::channel::mpsc::Receiver<WhatsAppCommand>) {
    let (tx, rx) = futures::channel::mpsc::channel(8);
    (Connection::new(tx), rx)
}

#[test]
fn conversation_text_comes_first() {
    let mut m = empty_fields();
    m.conversation = Some("hi".to_string());
    m.image_message = Some(MediaFields { caption: Some("c".to_string()), url: None, jpeg_thumbnail: None });
    assert!(matches!(parse_message_content(m), MessageContent::Text(t) if t == "hi"));
}

#[test]
fn blank_extended_text_falls_back_to_description() {
    let mut m = empty_fields();
    m.extended_text_message = Some(ExtendedTextFields { text: Some("   ".to_string()), description: Some("desc".to_string()) });
    assert!(matches!(parse_message_content(m), MessageContent::Text(t) if t == "desc"));
    let mut blank = empty_fields();
    blank.extended_text_message = Some(ExtendedTextFields { text: Some(" ".to_string()), description: None });
    assert!(matches!(parse_message_content(blank), MessageContent::Unknown));
}

#[test]
fn missing_fields_get_defaults() {
    let mut audio = empty_fields();
    audio.audio_message = Some(AudioFields { url: None, seconds: None, ptt: None });
    assert!(matches!(
        parse_message_content(audio),
        MessageContent::Audio { duration_secs: 0, is_voice_note: false, .. }
    ));
    let mut doc = empty_fields();
    doc.document_message = Some(DocumentFields { file_name: None, url: None, mimetype: None });
    assert!(matches!(parse_message_content(doc), MessageContent::Document { filename, .. } if filename == "Document"));
}

#[test]
fn wrapped_messages_are_unwrapped() {
    let mut inner = empty_fields();
    inner.conversation = Some("secret".to_string());
    let mut outer = empty_fields();
    outer.ephemeral_message = Some(Box::new(inner));
    assert!(matches!(parse_message_content(outer), MessageContent::Text(t) if t == "secret"));
    assert!(matches!(parse_message_content(empty_fields()), MessageContent::Unknown));
}

#[test]
fn jids_split_at_the_first_at_sign() {
    assert_eq!(split_jid("1@s.whatsapp.net"), Some(("1".to_string(), "s.whatsapp.net".to_string())));
    assert_eq!(split_jid("a@b@c"), Some(("a".to_string(), "b@c".to_string())));
    assert_eq!(split_jid("nope"), None);
}

#[test]
fn commands_become_client_actions() {
    let send = WhatsAppCommand::SendMessage {
        local_id: "l".to_string(),
        chat_jid: whatsapp::Jid::new("9@s.whatsapp.net".to_string()),
        text: "yo".to_string(),
    };
    match client_action(send) {
        ClientAction::SendText { local_id, user, server, text, .. } => {
            assert_eq!((local_id.as_str(), user.as_str(), server.as_str(), text.as_str()), ("l", "9", "s.whatsapp.net", "yo"));
        }
        other => panic!("unexpected {:?}", other),
    }
    let typing = WhatsAppCommand::SendTyping { chat_jid: whatsapp::Jid::new("bad".to_string()), typing: true };
    assert!(matches!(client_action(typing), ClientAction::Nothing));
    assert!(matches!(client_action(WhatsAppCommand::MarkAsRead), ClientAction::Nothing));
}

#[test]
fn requests_are_passed_to_the_connection() {
    let (conn, mut rx) = connection();
    let mut slot = Some(conn);
    let request = RpcRequest::SendTyping { chat_jid: rpc::Jid::new("1@x".to_string()), typing: true };
    assert_eq!(handle_request(request, &mut slot), Some(true));
    match rx.try_next() {
        Ok(Some(WhatsAppCommand::SendTyping { chat_jid, typing })) => {
            assert_eq!(chat_jid.0, "1@x");
            assert!(typing);
        }
        _ => panic!("no command"),
    }
    assert_eq!(handle_request(RpcRequest::Disconnect, &mut slot), None);
    let mut none: Option<Connection> = None;
    assert_eq!(handle_request(RpcRequest::MarkAsRead { chat_jid: rpc::Jid::new("1@x".to_string()) }, &mut none), None);
    assert!(command_for_request(RpcRequest::Disconnect).is_none());
}

#[test]
fn events_become_notifications() {
    let n = convert_event_to_notification(WhatsAppEvent::Disconnected);
    assert!(matches!(n, Some(RpcNotification::ConnectionStateChanged(rpc::ConnectionState::Reconnecting))));
    let chats = vec![whatsapp::Chat::new(whatsapp::Jid::new("1@g.us".to_string()), "G".to_string())];
    match convert_event_to_notification(WhatsAppEvent::ChatsUpdated(chats)) {
        Some(RpcNotification::ChatsUpdated(v)) => {
            assert_eq!(v.len(), 1);
            assert_eq!(v[0].jid.0, "1@g.us");
            assert!(v[0].is_group);
        }
        _ => panic!("wrong notification"),
    }
    assert_eq!(convert_jid(whatsapp::Jid::new("x".to_string())).0, "x");
    assert_eq!(convert_message_status(MessageStatus::Read), rpc::MessageStatus::Read);
    let c = convert_chat(whatsapp::Chat::new(whatsapp::Jid::new("2@s".to_string()), "N".to_string()));
    assert_eq!(c.name, "N");
}

#[test]
fn quoted_messages_are_converted_too() {
    let quoted = whatsapp::ChatMessage {
        id: "q".to_string(),
        sender: whatsapp::Jid::new("a".to_string()),
        chat: whatsapp::Jid::new("c".to_string()),
        content: MessageContent::Text("old".to_string()),
        timestamp: 1,
        is_from_me: false,
        status: MessageStatus::Read,
        quoted_message: None,
    };
    let msg = whatsapp::ChatMessage {
        id: "m".to_string(),
        sender: whatsapp::Jid::new("b".to_string()),
        chat: whatsapp::Jid::new("c".to_string()),
        content: MessageContent::Text("new".to_string()),
        timestamp: 2,
        is_from_me: true,
        status: MessageStatus::Sent,
        quoted_message: Some(Box::new(quoted)),
    };
    let r = convert_chat_message(msg);
    assert_eq!(r.id, "m");
    assert_eq!(r.quoted_message.as_ref().map(|q| q.id.clone()), Some("q".to_string()));
    assert_eq!(r.status, rpc::MessageStatus::Sent);
}

#[test]
fn restored_messages_keep_their_stored_time() {
    let stored = StoredMessage {
        message_id: "id".to_string(),
        sender_jid: "s".to_string(),
        chat_jid: "c".to_string(),
        is_from_me: false,
        timestamp_ms: 2_000,
        status: MessageStatus::Delivered,
        raw_message: vec![],
    };
    let mut fields = empty_fields();
    fields.conversation = Some("t".to_string());
    let m = restored_message_at(stored, fields, 77);
    assert_eq!(m.timestamp, 2_000_000_000);
    assert_eq!(m.chat.0, "c");
}

#[test]
fn qr_codes_are_announced_and_change_the_state() {
    let (conn, _rx) = connection();
    let mut counters = SyncCounters { current: 0, total_hint: None };
    let effects = handle_internal_event_at(ServiceEvent::PairingQrCode { code: "QR".to_string() }, &conn, &mut counters, 0);
    assert_eq!(effects.len(), 2);
    assert!(matches!(&effects[0], ServiceEffect::Emit(WhatsAppEvent::QrCodeReceived { qr_code }) if qr_code == "QR"));
    assert!(matches!(
        &effects[1],
        ServiceEffect::Emit(WhatsAppEvent::ConnectionStateChanged(whatsapp::ConnectionState::WaitingForQr { .. }))
    ));
}

#[test]
fn live_messages_are_stored_named_and_shown() {
    let (conn, _rx) = connection();
    let mut counters = SyncCounters { current: 0, total_hint: None };
    let mut fields = empty_fields();
    fields.conversation = Some("hello".to_string());
    let msg = IncomingMessage {
        id: "M1".to_string(),
        sender: "5@s.whatsapp.net".to_string(),
        chat: "5@s.whatsapp.net".to_string(),
        is_from_me: false,
        timestamp: 3_500_000_000,
        push_name: "Eve".to_string(),
        content: fields,
        raw_message: vec![9],
    };
    let effects = handle_internal_event_at(ServiceEvent::Message(msg), &conn, &mut counters, 0);
    assert_eq!(effects.len(), 4);
    assert!(matches!(&effects[0], ServiceEffect::Persist(StorageCommand::UpsertMessage(m)) if m.timestamp_ms == 3_500 && m.status == MessageStatus::Delivered));
    assert!(matches!(&effects[1], ServiceEffect::Persist(StorageCommand::UpsertContactName { name, .. }) if name == "Eve"));
    assert!(matches!(&effects[2], ServiceEffect::Emit(WhatsAppEvent::ContactNameUpdated { .. })));
    assert!(matches!(&effects[3], ServiceEffect::Emit(WhatsAppEvent::MessageReceived(m)) if m.id == "M1"));
}

#[test]
fn receipts_update_each_message() {
    let (conn, _rx) = connection();
    let mut counters = SyncCounters { current: 0, total_hint: None };
    let event = ServiceEvent::Receipt {
        kind: ReceiptKind::ReadSelf,
        chat: "c@g.us".to_string(),
        message_ids: vec!["a".to_string(), "b".to_string()],
    };
    let effects = handle_internal_event_at(event, &conn, &mut counters, 0);
    assert_eq!(effects.len(), 2);
    for (e, id) in effects.iter().zip(["a", "b"]) {
        assert!(matches!(e, ServiceEffect::Emit(WhatsAppEvent::MessageStatusUpdated { message_id, status: MessageStatus::Read, .. }) if message_id == id));
    }
    let other = ServiceEvent::Receipt { kind: ReceiptKind::Other, chat: "c".to_string(), message_ids: vec!["z".to_string()] };
    let effects = handle_internal_event_at(other, &conn, &mut counters, 0);
    assert!(matches!(&effects[0], ServiceEffect::Emit(WhatsAppEvent::MessageStatusUpdated { status: MessageStatus::Sent, .. })));
}

#[test]
fn chat_presence_maps_to_typing_states() {
    let (conn, _rx) = connection();
    let mut counters = SyncCounters { current: 0, total_hint: None };
    let cases = [(true, true, whatsapp::TypingState::Recording), (true, false, whatsapp::TypingState::Typing), (false, true, whatsapp::TypingState::Idle)];
    for (composing, audio, expected) in cases {
        let event = ServiceEvent::ChatPresence { chat: "c".to_string(), sender: "s".to_string(), composing, audio };
        let effects = handle_internal_event_at(event, &conn, &mut counters, 0);
        assert!(matches!(&effects[0], ServiceEffect::Emit(WhatsAppEvent::TypingIndicator { state, .. }) if *state == expected));
    }
}

#[test]
fn sync_preview_and_completion_update_the_counters() {
    let (conn, _rx) = connection();
    let mut counters = SyncCounters { current: 4, total_hint: None };
    let effects = handle_internal_event_at(ServiceEvent::OfflineSyncPreview { total: -3 }, &conn, &mut counters, 0);
    assert_eq!(counters.current, 0);
    assert_eq!(counters.total_hint, Some(0));
    assert!(matches!(&effects[0], ServiceEffect::Emit(WhatsAppEvent::HistorySyncProgress { current: 0, total }) if *total == (-3i32) as u32));
    handle_internal_event_at(ServiceEvent::OfflineSyncCompleted, &conn, &mut counters, 0);
    assert_eq!(counters.total_hint, None);
}

fn history(id: Option<&str>, ts: Option<u64>) -> Option<HistoryItem> {
    let mut fields = empty_fields();
    fields.conversation = Some("h".to_string());
    Some(HistoryItem {
        id: id.map(|s| s.to_string()),
        remote_jid: None,
        participant: None,
        from_me: None,
        message_timestamp: ts,
        content: fields,
        raw_message: vec![1],
    })
}

#[test]
fn joined_groups_are_stored_with_their_messages() {
    let (conn, _rx) = connection();
    let mut counters = SyncCounters { current: 1, total_hint: Some(10) };
    let conv = JoinedConversation {
        id: "77:2@s.whatsapp.net".to_string(),
        display_name: None,
        name: None,
        username: None,
        pn_jid: None,
        conversation_timestamp: None,
        last_msg_timestamp: Some(100),
        unread_count: Some(2),
        mute_end_time: Some(0),
        pinned: Some(1),
        raw_conversation: vec![5],
        messages: Some(vec![history(Some("x"), Some(50)), None, history(None, Some(60))]),
    };
    let effects = handle_internal_event_at(ServiceEvent::JoinedGroup(Some(conv)), &conn, &mut counters, 0);
    assert_eq!(counters.current, 2);
    assert_eq!(effects.len(), 7);
    match &effects[1] {
        ServiceEffect::Emit(WhatsAppEvent::ChatUpdated(chat)) => {
            assert_eq!(chat.name, "77");
            assert!(chat.is_pinned);
            assert!(!chat.is_muted);
            assert_eq!(chat.last_activity, Some(100_000_000_000));
            assert_eq!(chat.unread_count, 2);
        }
        _ => panic!("the second effect is not a chat update"),
    }
    assert!(matches!(&effects[5], ServiceEffect::Emit(WhatsAppEvent::MessageReceived(m)) if m.id == "history_77:2@s.whatsapp.net_60000"));
    assert!(matches!(&effects[6], ServiceEffect::Emit(WhatsAppEvent::HistorySyncProgress { current: 2, total: 10 })));
}

#[test]
fn joined_groups_without_messages_still_count() {
    let (conn, _rx) = connection();
    let mut counters = SyncCounters { current: 4, total_hint: None };
    let conv = JoinedConversation {
        id: "88@g.us".to_string(),
        display_name: Some("Team".to_string()),
        name: None,
        username: None,
        pn_jid: None,
        conversation_timestamp: None,
        last_msg_timestamp: None,
        unread_count: None,
        mute_end_time: None,
        pinned: None,
        raw_conversation: vec![],
        messages: None,
    };
    let effects = handle_internal_event_at(ServiceEvent::JoinedGroup(Some(conv)), &conn, &mut counters, 0);
    assert_eq!(counters.current, 5);
    assert_eq!(effects.len(), 3);
    assert!(matches!(&effects[2], ServiceEffect::Emit(WhatsAppEvent::HistorySyncProgress { current: 5, total: 5 })));
}

#[test]
fn contact_updates_record_every_known_jid() {
    let (conn, _rx) = connection();
    let mut counters = SyncCounters { current: 0, total_hint: None };
    let event = ServiceEvent::ContactUpdate {
        jid: "1@lid".to_string(),
        full_name: None,
        first_name: Some("Kim".to_string()),
        pn_jid: Some("1@s.whatsapp.net".to_string()),
        lid_jid: None,
    };
    let effects = handle_internal_event_at(event, &conn, &mut counters, 0);
    assert_eq!(effects.len(), 4);
    let blank = ServiceEvent::ContactUpdate { jid: "1@lid".to_string(), full_name: Some("  ".to_string()), first_name: Some("Kim".to_string()), pn_jid: None, lid_jid: None };
    assert!(handle_internal_event_at(blank, &conn, &mut counters, 0).is_empty());
    let push = ServiceEvent::PushNameUpdate { jid: "j".to_string(), new_push_name: " ".to_string() };
    assert!(handle_internal_event_at(push, &conn, &mut counters, 0).is_empty());
}

#[test]
fn connected_hands_out_the_connection() {
    let (conn, _rx) = connection();
    let mut counters = SyncCounters { current: 0, total_hint: None };
    let effects = handle_internal_event_at(ServiceEvent::Connected, &conn, &mut counters, 0);
    assert!(matches!(&effects[0], ServiceEffect::Emit(WhatsAppEvent::Connected(_))));
    assert!(matches!(&effects[1], ServiceEffect::Emit(WhatsAppEvent::ConnectionStateChanged(whatsapp::ConnectionState::Connected))));
}
