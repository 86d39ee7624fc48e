use whatsapp_desktop::clock::{from_millis, from_unix_seconds, millis, now, seconds, unix_seconds};
use whatsapp_desktop::keyed::StrMap;
use whatsapp_desktop::rpc::client::send_message_request;
use whatsapp_desktop::rpc::{Jid, RpcClientHandle, RpcRequest};
use whatsapp_desktop::text::decimal_string;
use whatsapp_desktop::whatsapp::{Connection, WhatsAppCommand};

#[test]
fn clock_reads_a_recent_time() {
    let t = now();
    assert!(t > 1_600_000_000i128 * 1_000_000_000);
}

#[test]
fn millis_and_seconds_round_down() {
    assert_eq!(millis(1_999_999), 1);
    assert_eq!(millis(-1), -1);
    assert_eq!(unix_seconds(-1), -1);
    assert_eq!(unix_seconds(2_500_000_000), 2);
    assert_eq!(seconds(3), 3_000_000_000);
}

#[test]
fn instants_outside_chrono_are_refused() {
    assert_eq!(from_millis(1_000), Some(1_000_000_000));
    assert_eq!(from_millis(i64::MAX), None);
    assert_eq!(from_unix_seconds(0), Some(0));
    assert_eq!(from_unix_seconds(i64::MIN), None);
}

#[test]
fn text_helpers() {
    assert_eq!(decimal_string(-120), "-120");
    assert_eq!(decimal_string(i64::MIN), "-9223372036854775808");
    assert_eq!(whatsapp_desktop::text::concat("ab", "cd"), "abcd");
}

#[test]
fn keyed_map_keeps_insertion_order() {
    let mut map: StrMap<u32> = StrMap::new();
    map.insert("b".to_string(), 1);
    map.insert("a".to_string(), 2);
    map.insert("b".to_string(), 3);
    assert_eq!(map.len(), 2);
    assert_eq!(map.key_at(0), "b");
    assert_eq!(map.value_at(0), &3);
    assert_eq!(map.remove("a"), Some(2));
    assert!(!map.contains_key("a"));
}

#[test]
fn manual_requests_carry_the_time() {
    match send_message_request(Jid::new("1@s".to_string()), "t".to_string(), 42) {
        RpcRequest::SendMessage { local_id, .. } => assert_eq!(local_id, "manual_42"),
        _ => panic!("wrong request"),
    }
}

#[test]
fn client_handle_forwards_requests() {
    let (tx, mut rx) = futures::channel::mpsc::channel(2);
    let mut handle = RpcClientHandle::from_sender(tx);
    handle.mark_as_read(Jid::new("c@s".to_string()));
    assert!(matches!(rx.try_next(), Ok(Some(RpcRequest::MarkAsRead { .. }))));
}

#[test]
fn connection_reports_whether_the_command_was_taken() {
    let (tx, rx) = futures::channel::mpsc::channel(0);
    let mut conn = Connection::new(tx);
    assert!(conn.send(WhatsAppCommand::MarkAsRead));
    drop(rx);
    assert!(!conn.send(WhatsAppCommand::MarkAsRead));
}
