use whatsapp_desktop::rpc;
use whatsapp_desktop::whatsapp::{Chat, ConnectionState, Jid, MessageContent};

#[test]
fn jid_user_is_the_part_before_the_at_sign() {
    let jid = Jid::new("12345:7@s.whatsapp.net".to_string());
    assert_eq!(jid.user(), "12345:7");
    assert_eq!(jid.display_label(), "12345");
    let bare = Jid::new("no-server".to_string());
    assert_eq!(bare.user(), "no-server");
}

#[test]
fn group_jids_are_recognized() {
    assert!(Jid::new("120363@g.us".to_string()).is_group());
    assert!(!Jid::new("123@s.whatsapp.net".to_string()).is_group());
    let chat = Chat::new(Jid::new("1@g.us".to_string()), "Team".to_string());
    assert!(chat.is_group);
    assert_eq!(chat.unread_count, 0);
    assert!(chat.last_message.is_none());
}

#[test]
fn rpc_jid_normalizes_the_device_suffix() {
    let jid = rpc::Jid::new("555:12@s.whatsapp.net".to_string());
    assert_eq!(jid.user(), "555:12");
    assert_eq!(jid.normalized_user(), "555");
    assert_eq!(jid.display_label(), "555");
    assert!(!jid.is_group());
}

#[test]
fn short_text_is_its_own_preview() {
    let content = MessageContent::Text("hello".to_string());
    assert_eq!(content.preview(), "hello");
    let fifty = "a".repeat(50);
    assert_eq!(MessageContent::Text(fifty.clone()).preview(), fifty);
}

#[test]
fn long_text_is_cut_at_47_bytes() {
    let text = "b".repeat(60);
    let preview = MessageContent::Text(text).preview();
    assert_eq!(preview, format!("{}...", "b".repeat(47)));
    assert_eq!(preview.len(), 50);
}

#[test]
fn rpc_preview_counts_characters() {
    let text = "é".repeat(60);
    let preview = rpc::MessageContent::Text(text).preview();
    assert_eq!(preview, format!("{}...", "é".repeat(47)));
    assert_eq!(preview.chars().count(), 50);
}

#[test]
fn media_previews_use_captions_or_labels() {
    let image = MessageContent::Image { caption: None, url: None, thumbnail: None };
    assert_eq!(image.preview(), "📷 Photo");
    let captioned = MessageContent::Image { caption: Some("sunset".to_string()), url: None, thumbnail: None };
    assert_eq!(captioned.preview(), "sunset");
    let voice = MessageContent::Audio { url: None, duration_secs: 3, is_voice_note: true };
    assert_eq!(voice.preview(), "🎤 Voice message");
    let audio = MessageContent::Audio { url: None, duration_secs: 3, is_voice_note: false };
    assert_eq!(audio.preview(), "🎵 Audio");
    let doc = MessageContent::Document { filename: "a.pdf".to_string(), url: None, mime_type: None };
    assert_eq!(doc.preview(), "📄 a.pdf");
    let contact = MessageContent::Contact { display_name: "Ann".to_string(), vcard: String::new() };
    assert_eq!(contact.preview(), "👤 Ann");
    assert_eq!(MessageContent::Sticker { url: None }.preview(), "🎭 Sticker");
    let place = MessageContent::Location { latitude_bits: 0, longitude_bits: 0, name: None };
    assert_eq!(place.preview(), "📍 Location");
    assert_eq!(MessageContent::System("x joined".to_string()).preview(), "x joined");
    assert_eq!(MessageContent::Unknown.preview(), "Unsupported message");
}

#[test]
fn connection_state_queries() {
    assert!(ConnectionState::Connected.is_connected());
    assert!(!ConnectionState::Connecting.is_connected());
    assert!(ConnectionState::Disconnected.needs_pairing());
    assert!(ConnectionState::WaitingForQr { qr_code: "q".to_string() }.needs_pairing());
    assert!(ConnectionState::WaitingForPairCode { code: "c".to_string() }.needs_pairing());
    assert!(ConnectionState::LoggedOut.needs_pairing());
    assert!(!ConnectionState::Reconnecting.needs_pairing());
    assert!(rpc::ConnectionState::Connected.is_connected());
    assert!(rpc::ConnectionState::LoggedOut.needs_pairing());
}
