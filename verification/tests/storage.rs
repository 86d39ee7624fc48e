use whatsapp_desktop::keyed::StrMap;
use whatsapp_desktop::whatsapp::storage::queries::{chat_from_row, contact_map_from_rows, message_from_row, ChatRow, MessageRow};
use whatsapp_desktop::whatsapp::storage::writer::{WriteBuffer, WriterEvent};
use whatsapp_desktop::whatsapp::storage::{normalize_user_from_jid, status_from_str, status_to_str, StorageCommand, StorageWriter};
use whatsapp_desktop::whatsapp::MessageStatus;

#[test]
fn status_texts_read_back_as_the_status() {
    for s in [MessageStatus::Pending, MessageStatus::Sent, MessageStatus::Delivered, MessageStatus::Read, MessageStatus::Failed] {
        assert_eq!(status_from_str(status_to_str(s)), s);
    }
    assert_eq!(status_to_str(MessageStatus::Read), "read");
}

#[test]
fn unknown_status_text_reads_as_delivered() {
    assert_eq!(status_from_str("weird"), MessageStatus::Delivered);
    assert_eq!(status_from_str(""), MessageStatus::Delivered);
    assert_eq!(status_from_str("Read"), MessageStatus::Delivered);
}

#[test]
fn user_key_drops_server_and_device() {
    assert_eq!(normalize_user_from_jid("123:4@s.whatsapp.net"), "123");
    assert_eq!(normalize_user_from_jid("123@s.whatsapp.net"), "123");
    assert_eq!(normalize_user_from_jid("plain"), "plain");
}

#[test]
fn later_contact_rows_replace_earlier_names() {
    let rows = vec![
        ("1".to_string(), "Ann".to_string()),
        ("2".to_string(), "Bob".to_string()),
        ("1".to_string(), "Annie".to_string()),
    ];
    let map = contact_map_from_rows(rows);
    assert_eq!(map.len(), 2);
    assert_eq!(map.get("1"), Some(&"Annie".to_string()));
    assert_eq!(map.get("2"), Some(&"Bob".to_string()));
}

fn row(jid: &str, name: &str) -> ChatRow {
    ChatRow {
        jid: jid.to_string(),
        name: name.to_string(),
        last_message: Some("hi".to_string()),
        last_activity_ms: Some(1_500),
        is_group: 0,
        unread_count: 3,
        is_muted: 1,
        is_pinned: 0,
    }
}

#[test]
fn contact_names_override_chat_names_except_for_groups() {
    let mut contacts: StrMap<String> = StrMap::new();
    contacts.insert("42".to_string(), "Zoe".to_string());
    let chat = chat_from_row(row("42:3@s.whatsapp.net", "stored"), &contacts);
    assert_eq!(chat.name, "Zoe");
    assert_eq!(chat.jid.0, "42:3@s.whatsapp.net");
    assert_eq!(chat.last_activity, Some(1_500_000_000));
    assert!(chat.is_muted);
    assert!(!chat.is_pinned);
    assert_eq!(chat.unread_count, 3);
    let group = chat_from_row(row("42@g.us", "Group"), &contacts);
    assert_eq!(group.name, "Group");
    let other = chat_from_row(row("7@s.whatsapp.net", "Seven"), &contacts);
    assert_eq!(other.name, "Seven");
}

#[test]
fn message_rows_become_stored_messages() {
    let m = message_from_row(MessageRow {
        chat_jid: "c".to_string(),
        message_id: "m".to_string(),
        sender_jid: "s".to_string(),
        is_from_me: 1,
        timestamp_ms: 99,
        status: "failed".to_string(),
        raw_message: vec![1, 2, 3],
    });
    assert!(m.is_from_me);
    assert_eq!(m.status, MessageStatus::Failed);
    assert_eq!(m.raw_message, vec![1, 2, 3]);
    assert_eq!(m.timestamp_ms, 99);
}

#[test]
fn writer_batches_at_two_hundred_and_flushes_on_timeout() {
    let mut buffer: WriteBuffer<u32> = WriteBuffer::new();
    for i in 0..199u32 {
        let action = buffer.step(WriterEvent::Received(i));
        assert!(action.batch.is_empty());
        assert!(!action.stop);
    }
    let action = buffer.step(WriterEvent::Received(199));
    assert_eq!(action.batch, (0..200u32).collect::<Vec<_>>());
    buffer.step(WriterEvent::Received(500));
    let action = buffer.step(WriterEvent::TimedOut);
    assert_eq!(action.batch, vec![500]);
    assert!(!action.stop);
    let action = buffer.step(WriterEvent::TimedOut);
    assert!(action.batch.is_empty());
}

#[test]
fn writer_flushes_and_stops_when_disconnected() {
    let mut buffer: WriteBuffer<&str> = WriteBuffer::new();
    buffer.step(WriterEvent::Received("a"));
    buffer.step(WriterEvent::Received("b"));
    let action = buffer.step(WriterEvent::Disconnected);
    assert_eq!(action.batch, vec!["a", "b"]);
    assert!(action.stop);
}

#[test]
fn persisted_names_reach_the_writer_channel() {
    let (tx, rx) = std::sync::mpsc::channel();
    let writer = StorageWriter::new(tx);
    writer.persist_contact_name("1@s.whatsapp.net".to_string(), "Ann".to_string());
    match rx.try_recv() {
        Ok(StorageCommand::UpsertContactName { jid, name }) => {
            assert_eq!(jid, "1@s.whatsapp.net");
            assert_eq!(name, "Ann");
        }
        other => panic!("unexpected {:?}", other),
    }
}
