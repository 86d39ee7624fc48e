use whatsapp_desktop::model::state::chat_manager::ChatManager;
use whatsapp_desktop::model::state::message_manager::MessageManager;
use whatsapp_desktop::rpc::{self, Jid};

fn rpc_chat(jid: &str, name: &str) -> rpc::Chat {
    rpc::Chat {
        jid: Jid::new(jid.to_string()),
        name: name.to_string(),
        last_message: None,
        last_activity: None,
        is_group: false,
        unread_count: 0,
        is_muted: false,
        is_pinned: false,
    }
}

#[test]
fn chat_search_ignores_case() {
    let mut manager = ChatManager::default();
    manager.set_from_rpc(vec![
        rpc_chat("1@s.whatsapp.net", "Ana Lopez"),
        rpc_chat("2@s.whatsapp.net", "Bruno"),
        rpc_chat("3@s.whatsapp.net", "LOPEZ family"),
    ]);
    let found = manager.search_chats("LoPeZ");
    assert_eq!(found.len(), 2);
    assert_eq!(found[0].name, "Ana Lopez");
    assert_eq!(found[1].name, "LOPEZ family");
    assert!(manager.search_chats("zz").is_empty());
}

#[test]
fn message_search_ignores_case() {
    let mut manager = MessageManager::default();
    let chat = Jid::new("1@s.whatsapp.net".to_string());
    manager.add_pending_message_at(&chat, "Good MORNING".to_string(), 1);
    manager.add_pending_message_at(&chat, "night".to_string(), 2);
    let found = manager.search_messages(&chat, "morning");
    assert_eq!(found.len(), 1);
    assert_eq!(found[0].content, "Good MORNING");
}
