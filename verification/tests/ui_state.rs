use whatsapp_desktop::app_core::types::{Chat, ChatMessage, ViewState};
use whatsapp_desktop::ui::State;
use whatsapp_desktop::whatsapp::{self, Jid, MessageContent, MessageStatus, TypingState};

fn incoming(id: &str, chat: &str) -> whatsapp::ChatMessage {
    whatsapp::ChatMessage {
        id: id.to_string(),
        sender: Jid::new("s@x".to_string()),
        chat: Jid::new(chat.to_string()),
        content: MessageContent::Text("text".to_string()),
        timestamp: 1,
        is_from_me: false,
        status: MessageStatus::Delivered,
        quoted_message: None,
    }
}

#[test]
fn screen_state_starts_empty() {
    let state = State::default();
    assert!(state.get_typing(&Jid::new("a".to_string())).is_none());
    assert_eq!(ViewState::default(), ViewState::Loading);
}

#[test]
fn statuses_are_updated_on_the_first_matching_message() {
    let mut state = State::new();
    state.add_message(incoming("m1", "c1"));
    state.add_message(incoming("m2", "c2"));
    state.update_message_status("m2", MessageStatus::Read);
    state.update_message_status("missing", MessageStatus::Failed);
    state.set_typing(Jid::new("c1".to_string()), Jid::new("s".to_string()), TypingState::Typing);
    state.set_typing(Jid::new("c1".to_string()), Jid::new("s".to_string()), TypingState::Recording);
    let typing = state.get_typing(&Jid::new("c1".to_string())).unwrap();
    assert_eq!(typing.len(), 1);
    assert_eq!(typing.get("s"), Some(&TypingState::Recording));
}

#[test]
fn chats_are_replaced_or_appended() {
    let mut state = State::new();
    let mut chat = whatsapp::Chat::new(Jid::new("1@s".to_string()), "A".to_string());
    state.set_chats(vec![chat.clone()]);
    chat.name = "B".to_string();
    state.update_chat(chat);
    state.update_chat(whatsapp::Chat::new(Jid::new("2@s".to_string()), "C".to_string()));
    let screen = Chat::from_whatsapp(whatsapp::Chat::new(Jid::new("3@s".to_string()), "D".to_string()));
    assert_eq!(screen.last_message, "");
}

#[test]
fn sending_needs_text_and_a_chat() {
    let mut state = State::new();
    state.set_input("hello".to_string());
    state.send_message_at(1_000_000);
    state.select_chat(Jid::new("c".to_string()));
    state.send_message_at(2_000_000);
    state.set_input(String::new());
    state.send_message_at(3_000_000);
    let m = ChatMessage::from_whatsapp(incoming("z", "c"));
    assert_eq!(m.content, "text");
    assert!(!m.is_me);
}
