//! The service side of the request/notification channel: how client events
//! become notifications, how requests become client commands, and the
//! decisions the service takes on what the WhatsApp client reports.

pub mod content;
pub mod events;

use vstd::prelude::*;
use crate::rpc::{self, RpcNotification, RpcRequest};
use crate::clock::{self, chrono_accepts_millis, Timestamp};
use crate::text::{chars_of, first_index_from, string_from};
use crate::whatsapp::{self, WhatsAppCommand, WhatsAppEvent};
use crate::whatsapp::storage::StoredMessage;
use content::{content_of, same_content};
use crate::rpc::types::preview_of;
use crate::whatsapp::types::content_preview;

pub use content::{parse_message_content, MessageFields};
pub use events::{handle_internal_event, handle_internal_event_at, ServiceEffect, ServiceEvent, SyncCounters};

verus! {

/// The service form of a client JID.
pub open spec fn jid_to_rpc(jid: whatsapp::Jid) -> rpc::Jid {
    rpc::Jid(jid.0)
}

/// The service form of a connection state.
pub open spec fn connection_to_rpc(state: whatsapp::ConnectionState) -> rpc::ConnectionState {
    match state {
        whatsapp::ConnectionState::Disconnected => rpc::ConnectionState::Disconnected,
        whatsapp::ConnectionState::Connecting => rpc::ConnectionState::Connecting,
        whatsapp::ConnectionState::WaitingForQr { qr_code } => rpc::ConnectionState::WaitingForQr { qr_code },
        whatsapp::ConnectionState::WaitingForPairCode { code } => rpc::ConnectionState::WaitingForPairCode { code },
        whatsapp::ConnectionState::Connected => rpc::ConnectionState::Connected,
        whatsapp::ConnectionState::Reconnecting => rpc::ConnectionState::Reconnecting,
        whatsapp::ConnectionState::LoggedOut => rpc::ConnectionState::LoggedOut,
    }
}

/// The service form of a message status.
pub open spec fn status_to_rpc(status: whatsapp::MessageStatus) -> rpc::MessageStatus {
    match status {
        whatsapp::MessageStatus::Pending => rpc::MessageStatus::Pending,
        whatsapp::MessageStatus::Sent => rpc::MessageStatus::Sent,
        whatsapp::MessageStatus::Delivered => rpc::MessageStatus::Delivered,
        whatsapp::MessageStatus::Read => rpc::MessageStatus::Read,
        whatsapp::MessageStatus::Failed => rpc::MessageStatus::Failed,
    }
}

/// The service form of a typing state.
pub open spec fn typing_to_rpc(state: whatsapp::TypingState) -> rpc::TypingState {
    match state {
        whatsapp::TypingState::Idle => rpc::TypingState::Idle,
        whatsapp::TypingState::Typing => rpc::TypingState::Typing,
        whatsapp::TypingState::Recording => rpc::TypingState::Recording,
    }
}

/// The service form of message content: the same variant with the same fields.
pub open spec fn content_to_rpc(content: whatsapp::MessageContent) -> rpc::MessageContent {
    match content {
        whatsapp::MessageContent::Text(text) => rpc::MessageContent::Text(text),
        whatsapp::MessageContent::Image { caption, url, thumbnail } => rpc::MessageContent::Image {
            caption,
            url,
            thumbnail,
        },
        whatsapp::MessageContent::Video { caption, url, thumbnail } => rpc::MessageContent::Video {
            caption,
            url,
            thumbnail,
        },
        whatsapp::MessageContent::Audio { url, duration_secs, is_voice_note } => rpc::MessageContent::Audio {
            url,
            duration_secs,
            is_voice_note,
        },
        whatsapp::MessageContent::Document { filename, url, mime_type } => rpc::MessageContent::Document {
            filename,
            url,
            mime_type,
        },
        whatsapp::MessageContent::Sticker { url } => rpc::MessageContent::Sticker { url },
        whatsapp::MessageContent::Location { latitude_bits, longitude_bits, name } => rpc::MessageContent::Location {
            latitude_bits,
            longitude_bits,
            name,
        },
        whatsapp::MessageContent::Contact { display_name, vcard } => rpc::MessageContent::Contact {
            display_name,
            vcard,
        },
        whatsapp::MessageContent::System(text) => rpc::MessageContent::System(text),
        whatsapp::MessageContent::Unknown => rpc::MessageContent::Unknown,
    }
}

/// The service form of a message, quoted messages included.
pub open spec fn message_to_rpc(msg: whatsapp::ChatMessage) -> rpc::ChatMessage
    decreases msg,
{
    rpc::ChatMessage {
        id: msg.id,
        sender: jid_to_rpc(msg.sender),
        chat: jid_to_rpc(msg.chat),
        content: content_to_rpc(msg.content),
        timestamp: msg.timestamp,
        is_from_me: msg.is_from_me,
        status: status_to_rpc(msg.status),
        quoted_message: match msg.quoted_message {
            Some(q) => Some(Box::new(message_to_rpc(*q))),
            None => None,
        },
    }
}

/// The service form of a chat.
pub open spec fn chat_to_rpc(chat: whatsapp::Chat) -> rpc::Chat {
    rpc::Chat {
        jid: jid_to_rpc(chat.jid),
        name: chat.name,
        last_message: chat.last_message,
        last_activity: chat.last_activity,
        is_group: chat.is_group,
        unread_count: chat.unread_count,
        is_muted: chat.is_muted,
        is_pinned: chat.is_pinned,
    }
}

/// The service form of a presence.
pub open spec fn presence_to_rpc(presence: whatsapp::Presence) -> rpc::Presence {
    rpc::Presence {
        jid: jid_to_rpc(presence.jid),
        is_online: presence.is_online,
        last_seen: presence.last_seen,
    }
}

pub fn convert_jid(jid: whatsapp::Jid) -> (r: rpc::Jid)
    ensures
        r == jid_to_rpc(jid),
{
    rpc::Jid(jid.0)
}

pub fn convert_connection_state(state: whatsapp::ConnectionState) -> (r: rpc::ConnectionState)
    ensures
        r == connection_to_rpc(state),
{
    match state {
        whatsapp::ConnectionState::Disconnected => rpc::ConnectionState::Disconnected,
        whatsapp::ConnectionState::Connecting => rpc::ConnectionState::Connecting,
        whatsapp::ConnectionState::WaitingForQr { qr_code } => rpc::ConnectionState::WaitingForQr { qr_code },
        whatsapp::ConnectionState::WaitingForPairCode { code } => rpc::ConnectionState::WaitingForPairCode { code },
        whatsapp::ConnectionState::Connected => rpc::ConnectionState::Connected,
        whatsapp::ConnectionState::Reconnecting => rpc::ConnectionState::Reconnecting,
        whatsapp::ConnectionState::LoggedOut => rpc::ConnectionState::LoggedOut,
    }
}

pub fn convert_message_status(status: whatsapp::MessageStatus) -> (r: rpc::MessageStatus)
    ensures
        r == status_to_rpc(status),
{
    match status {
        whatsapp::MessageStatus::Pending => rpc::MessageStatus::Pending,
        whatsapp::MessageStatus::Sent => rpc::MessageStatus::Sent,
        whatsapp::MessageStatus::Delivered => rpc::MessageStatus::Delivered,
        whatsapp::MessageStatus::Read => rpc::MessageStatus::Read,
        whatsapp::MessageStatus::Failed => rpc::MessageStatus::Failed,
    }
}

pub fn convert_typing_state(state: whatsapp::TypingState) -> (r: rpc::TypingState)
    ensures
        r == typing_to_rpc(state),
{
    match state {
        whatsapp::TypingState::Idle => rpc::TypingState::Idle,
        whatsapp::TypingState::Typing => rpc::TypingState::Typing,
        whatsapp::TypingState::Recording => rpc::TypingState::Recording,
    }
}

pub fn convert_chat_message(msg: whatsapp::ChatMessage) -> (r: rpc::ChatMessage)
    ensures
        r == message_to_rpc(msg),
    decreases msg,
{
    let whatsapp::ChatMessage { id, sender, chat, content, timestamp, is_from_me, status, quoted_message } =
        msg;
    let quoted_message = match quoted_message {
        Some(q) => Some(Box::new(convert_chat_message(*q))),
        None => None,
    };
    rpc::ChatMessage {
        id,
        sender: convert_jid(sender),
        chat: convert_jid(chat),
        content: convert_message_content(content),
        timestamp,
        is_from_me,
        status: convert_message_status(status),
        quoted_message,
    }
}

pub fn convert_message_content(content: whatsapp::MessageContent) -> (r: rpc::MessageContent)
    ensures
        r == content_to_rpc(content),
{
    match content {
        whatsapp::MessageContent::Text(text) => rpc::MessageContent::Text(text),
        whatsapp::MessageContent::Image { caption, url, thumbnail } => rpc::MessageContent::Image {
            caption,
            url,
            thumbnail,
        },
        whatsapp::MessageContent::Video { caption, url, thumbnail } => rpc::MessageContent::Video {
            caption,
            url,
            thumbnail,
        },
        whatsapp::MessageContent::Audio { url, duration_secs, is_voice_note } => rpc::MessageContent::Audio {
            url,
            duration_secs,
            is_voice_note,
        },
        whatsapp::MessageContent::Document { filename, url, mime_type } => rpc::MessageContent::Document {
            filename,
            url,
            mime_type,
        },
        whatsapp::MessageContent::Sticker { url } => rpc::MessageContent::Sticker { url },
        whatsapp::MessageContent::Location { latitude_bits, longitude_bits, name } => rpc::MessageContent::Location {
            latitude_bits,
            longitude_bits,
            name,
        },
        whatsapp::MessageContent::Contact { display_name, vcard } => rpc::MessageContent::Contact {
            display_name,
            vcard,
        },
        whatsapp::MessageContent::System(text) => rpc::MessageContent::System(text),
        whatsapp::MessageContent::Unknown => rpc::MessageContent::Unknown,
    }
}

pub fn convert_chat(chat: whatsapp::Chat) -> (r: rpc::Chat)
    ensures
        r == chat_to_rpc(chat),
{
    rpc::Chat {
        jid: convert_jid(chat.jid),
        name: chat.name,
        last_message: chat.last_message,
        last_activity: chat.last_activity,
        is_group: chat.is_group,
        unread_count: chat.unread_count,
        is_muted: chat.is_muted,
        is_pinned: chat.is_pinned,
    }
}

pub fn convert_presence(presence: whatsapp::Presence) -> (r: rpc::Presence)
    ensures
        r == presence_to_rpc(presence),
{
    rpc::Presence {
        jid: convert_jid(presence.jid),
        is_online: presence.is_online,
        last_seen: presence.last_seen,
    }
}

/// The notification that the service forwards for a client event.
pub open spec fn notifies(event: WhatsAppEvent, n: RpcNotification) -> bool {
    match event {
        WhatsAppEvent::ConnectionStateChanged(state) => n == RpcNotification::ConnectionStateChanged(
            connection_to_rpc(state),
        ),
        WhatsAppEvent::QrCodeReceived { qr_code } => n == RpcNotification::QrCodeReceived { qr_code },
        WhatsAppEvent::PairCodeReceived { code } => n == RpcNotification::PairCodeReceived { code },
        WhatsAppEvent::Connected(_) => n == RpcNotification::ConnectionStateChanged(
            rpc::ConnectionState::Connected,
        ),
        WhatsAppEvent::Disconnected => n == RpcNotification::ConnectionStateChanged(
            rpc::ConnectionState::Reconnecting,
        ),
        WhatsAppEvent::LoggedOut => n == RpcNotification::ConnectionStateChanged(
            rpc::ConnectionState::LoggedOut,
        ),
        WhatsAppEvent::MessageReceived(msg) => n == RpcNotification::MessageReceived(message_to_rpc(msg)),
        WhatsAppEvent::MessageSent { local_id, message_id, chat_jid } => n == RpcNotification::MessageSent {
            local_id,
            message_id,
            chat_jid: jid_to_rpc(chat_jid),
        },
        WhatsAppEvent::MessageSendFailed { local_id, chat_jid, error } => n
            == RpcNotification::MessageSendFailed { local_id, chat_jid: jid_to_rpc(chat_jid), error },
        WhatsAppEvent::MessageStatusUpdated { message_id, chat_jid, status } => n
            == RpcNotification::MessageStatusUpdated {
            message_id,
            chat_jid: jid_to_rpc(chat_jid),
            status: status_to_rpc(status),
        },
        WhatsAppEvent::ChatsUpdated(chats) => match n {
            RpcNotification::ChatsUpdated(v) => v@ == chats@.map_values(|c: whatsapp::Chat| chat_to_rpc(c)),
            _ => false,
        },
        WhatsAppEvent::ChatUpdated(chat) => n == RpcNotification::ChatUpdated(chat_to_rpc(chat)),
        WhatsAppEvent::ContactNameUpdated { jid, name } => n == RpcNotification::ContactNameUpdated {
            jid: jid_to_rpc(jid),
            name,
        },
        WhatsAppEvent::TypingIndicator { chat_jid, sender_jid, state } => n
            == RpcNotification::TypingIndicator {
            chat_jid: jid_to_rpc(chat_jid),
            sender_jid: jid_to_rpc(sender_jid),
            state: typing_to_rpc(state),
        },
        WhatsAppEvent::PresenceUpdated(presence) => n == RpcNotification::PresenceUpdated(
            presence_to_rpc(presence),
        ),
        WhatsAppEvent::HistorySyncProgress { current, total } => n
            == RpcNotification::HistorySyncProgress { current, total },
        WhatsAppEvent::HistorySyncCompleted => n == RpcNotification::HistorySyncCompleted,
        WhatsAppEvent::Error(error) => n == RpcNotification::Error(error),
    }
}

/// The service form of every chat, in order.
fn convert_chats(chats: Vec<whatsapp::Chat>) -> (r: Vec<rpc::Chat>)
    ensures
        r@ == chats@.map_values(|c: whatsapp::Chat| chat_to_rpc(c)),
{
    let ghost all = chats@;
    let mut rest = chats;
    let mut out: Vec<rpc::Chat> = Vec::new();
    while rest.len() > 0
        invariant
            out@.len() + rest@.len() == all.len(),
            rest@ == all.skip(out@.len() as int),
            out@ == all.take(out@.len() as int).map_values(|c: whatsapp::Chat| chat_to_rpc(c)),
        decreases rest@.len(),
    {
        let ghost k = out@.len() as int;
        let c = rest.remove(0);
        assert(c == all[k]);
        out.push(convert_chat(c));
        assert(all.take(k + 1).map_values(|c: whatsapp::Chat| chat_to_rpc(c)) =~= all.take(k).map_values(
            |c: whatsapp::Chat| chat_to_rpc(c),
        ).push(chat_to_rpc(all[k])));
        assert(rest@ =~= all.skip(k + 1));
    }
    assert(all.take(all.len() as int) =~= all);
    out
}

/// The notification forwarded for a client event; every event is forwarded.
pub fn convert_event_to_notification(event: WhatsAppEvent) -> (r: Option<RpcNotification>)
    ensures
        r matches Some(n) && notifies(event, n),
{
    match event {
        WhatsAppEvent::ConnectionStateChanged(state) => Some(
            RpcNotification::ConnectionStateChanged(convert_connection_state(state)),
        ),
        WhatsAppEvent::QrCodeReceived { qr_code } => Some(RpcNotification::QrCodeReceived { qr_code }),
        WhatsAppEvent::PairCodeReceived { code } => Some(RpcNotification::PairCodeReceived { code }),
        WhatsAppEvent::Connected(_) => Some(
            RpcNotification::ConnectionStateChanged(rpc::ConnectionState::Connected),
        ),
        WhatsAppEvent::Disconnected => Some(
            RpcNotification::ConnectionStateChanged(rpc::ConnectionState::Reconnecting),
        ),
        WhatsAppEvent::LoggedOut => Some(
            RpcNotification::ConnectionStateChanged(rpc::ConnectionState::LoggedOut),
        ),
        WhatsAppEvent::MessageReceived(msg) => Some(
            RpcNotification::MessageReceived(convert_chat_message(msg)),
        ),
        WhatsAppEvent::MessageSent { local_id, message_id, chat_jid } => Some(
            RpcNotification::MessageSent { local_id, message_id, chat_jid: convert_jid(chat_jid) },
        ),
        WhatsAppEvent::MessageSendFailed { local_id, chat_jid, error } => Some(
            RpcNotification::MessageSendFailed { local_id, chat_jid: convert_jid(chat_jid), error },
        ),
        WhatsAppEvent::MessageStatusUpdated { message_id, chat_jid, status } => Some(
            RpcNotification::MessageStatusUpdated {
                message_id,
                chat_jid: convert_jid(chat_jid),
                status: convert_message_status(status),
            },
        ),
        WhatsAppEvent::ChatsUpdated(chats) => Some(RpcNotification::ChatsUpdated(convert_chats(chats))),
        WhatsAppEvent::ChatUpdated(chat) => Some(RpcNotification::ChatUpdated(convert_chat(chat))),
        WhatsAppEvent::ContactNameUpdated { jid, name } => Some(
            RpcNotification::ContactNameUpdated { jid: convert_jid(jid), name },
        ),
        WhatsAppEvent::TypingIndicator { chat_jid, sender_jid, state } => Some(
            RpcNotification::TypingIndicator {
                chat_jid: convert_jid(chat_jid),
                sender_jid: convert_jid(sender_jid),
                state: convert_typing_state(state),
            },
        ),
        WhatsAppEvent::PresenceUpdated(presence) => Some(
            RpcNotification::PresenceUpdated(convert_presence(presence)),
        ),
        WhatsAppEvent::HistorySyncProgress { current, total } => Some(
            RpcNotification::HistorySyncProgress { current, total },
        ),
        WhatsAppEvent::HistorySyncCompleted => Some(RpcNotification::HistorySyncCompleted),
        WhatsAppEvent::Error(error) => Some(RpcNotification::Error(error)),
    }
}

/// The client command that a request becomes, if any: sending, typing and
/// read marks are passed on; history fetches and disconnects are not.
pub open spec fn command_of(request: RpcRequest) -> Option<WhatsAppCommand> {
    match request {
        RpcRequest::SendMessage { local_id, chat_jid, text } => Some(
            WhatsAppCommand::SendMessage { local_id, chat_jid: whatsapp::Jid(chat_jid.0), text },
        ),
        RpcRequest::SendTyping { chat_jid, typing } => Some(
            WhatsAppCommand::SendTyping { chat_jid: whatsapp::Jid(chat_jid.0), typing },
        ),
        RpcRequest::MarkAsRead { .. } => Some(WhatsAppCommand::MarkAsRead),
        RpcRequest::FetchHistory { .. } => None,
        RpcRequest::Disconnect => None,
    }
}

/// The client command for a request.
pub fn command_for_request(request: RpcRequest) -> (r: Option<WhatsAppCommand>)
    ensures
        r == command_of(request),
{
    match request {
        RpcRequest::SendMessage { local_id, chat_jid, text } => Some(
            WhatsAppCommand::SendMessage { local_id, chat_jid: whatsapp::Jid(chat_jid.0), text },
        ),
        RpcRequest::SendTyping { chat_jid, typing } => Some(
            WhatsAppCommand::SendTyping { chat_jid: whatsapp::Jid(chat_jid.0), typing },
        ),
        RpcRequest::MarkAsRead { .. } => Some(WhatsAppCommand::MarkAsRead),
        RpcRequest::FetchHistory { .. } => None,
        RpcRequest::Disconnect => None,
    }
}

/// Passes a request on to the client over its connection, when there is one:
/// the command handed to the connection is `command_of(request)`. Returns
/// whether the connection took it, or `None` when nothing was handed over.
pub fn handle_request(request: RpcRequest, connection: &mut Option<whatsapp::Connection>) -> (r: Option<bool>)
    ensures
        r is Some <==> (*old(connection) is Some && command_of(request) is Some),
        (*final(connection) is Some) == (*old(connection) is Some),
        match (*old(connection), command_of(request)) {
            (Some(c), Some(k)) => final(connection)->0.offered() == c.offered().push(k),
            _ => *final(connection) == *old(connection),
        },
{
    match command_for_request(request) {
        Some(command) => match connection {
            Some(conn) => Some(conn.send(command)),
            None => None,
        },
        None => None,
    }
}

/// The user and server parts of a JID: around its first `@`, when it has one.
pub open spec fn jid_parts(s: Seq<char>) -> Option<(Seq<char>, Seq<char>)> {
    let i = first_index_from(s, '@', 0);
    if i < s.len() {
        Some((s.take(i), s.skip(i + 1)))
    } else {
        None
    }
}

/// A JID splits exactly when it has an `@`; the user part has none and is
/// the JID's user part, and joining the parts with `@` gives the JID back.
pub proof fn lemma_jid_parts_rejoin(s: Seq<char>)
    ensures
        jid_parts(s) is Some <==> s.contains('@'),
        match jid_parts(s) {
            Some((u, v)) => s == u + seq!['@'] + v && !u.contains('@') && u == crate::rpc::types::jid_user(s),
            None => true,
        },
{
    crate::text::lemma_first_index_from(s, '@', 0);
    crate::text::lemma_cut_at(s, '@');
    let i = first_index_from(s, '@', 0);
    if i < s.len() {
        assert(s =~= s.take(i) + seq!['@'] + s.skip(i + 1));
    }
}

/// Splits a JID at its first `@`.
pub fn split_jid(jid: &str) -> (r: Option<(String, String)>)
    ensures
        match r {
            Some((user, server)) => jid_parts(jid@) == Some((user@, server@)),
            None => jid_parts(jid@) is None,
        },
{
    let v = chars_of(jid);
    let mut i: usize = 0;
    while i < v.len()
        invariant
            v@ == jid@,
            0 <= i <= v.len(),
            first_index_from(v@, '@', 0) == first_index_from(v@, '@', i as int),
        decreases v.len() - i,
    {
        if v[i] == '@' {
            let mut user: Vec<char> = Vec::new();
            let mut k: usize = 0;
            while k < i
                invariant
                    v@ == jid@,
                    i < v.len(),
                    0 <= k <= i,
                    user@ == v@.take(k as int),
                decreases i - k,
            {
                user.push(v[k]);
                assert(user@ == v@.take(k + 1));
                k = k + 1;
            }
            let mut server: Vec<char> = Vec::new();
            let mut m: usize = i + 1;
            while m < v.len()
                invariant
                    v@ == jid@,
                    i < v.len(),
                    i + 1 <= m <= v.len(),
                    server@ == v@.subrange(i + 1, m as int),
                decreases v.len() - m,
            {
                server.push(v[m]);
                assert(server@ == v@.subrange(i + 1, m + 1));
                m = m + 1;
            }
            assert(first_index_from(v@, '@', i as int) == i);
            assert(server@ == v@.skip(i + 1));
            return Some((string_from(user), string_from(server)));
        }
        i = i + 1;
    }
    None
}

/// What the service asks of the WhatsApp client for a command.
#[derive(Debug)]
pub enum ClientAction {
    /// Send a text to the user at the server; the result is reported under `local_id`.
    SendText { local_id: String, chat_jid: whatsapp::Jid, user: String, server: String, text: String },
    /// Send a chat state: composing, or paused.
    SendChatState { user: String, server: String, composing: bool },
    /// Nothing to do.
    Nothing,
}

/// The client action for a command: texts and typing states go to JIDs
/// with an `@` (others are dropped); read marks ask nothing yet.
pub open spec fn action_of(command: WhatsAppCommand) -> ClientAction {
    match command {
        WhatsAppCommand::SendMessage { local_id, chat_jid, text } => match jid_parts(chat_jid.0@) {
            Some((u, s)) => ClientAction::SendText {
                local_id,
                chat_jid,
                user: choose|x: String| x@ == u,
                server: choose|x: String| x@ == s,
                text,
            },
            None => ClientAction::Nothing,
        },
        WhatsAppCommand::SendTyping { chat_jid, typing } => match jid_parts(chat_jid.0@) {
            Some((u, s)) => ClientAction::SendChatState {
                user: choose|x: String| x@ == u,
                server: choose|x: String| x@ == s,
                composing: typing,
            },
            None => ClientAction::Nothing,
        },
        WhatsAppCommand::MarkAsRead => ClientAction::Nothing,
    }
}

/// Equal actions, where user and server parts are compared by their characters.
pub open spec fn same_action(a: ClientAction, b: ClientAction) -> bool {
    match (a, b) {
        (
            ClientAction::SendText { local_id: l1, chat_jid: j1, user: u1, server: s1, text: t1 },
            ClientAction::SendText { local_id: l2, chat_jid: j2, user: u2, server: s2, text: t2 },
        ) => l1 == l2 && j1 == j2 && u1@ == u2@ && s1@ == s2@ && t1 == t2,
        (
            ClientAction::SendChatState { user: u1, server: s1, composing: c1 },
            ClientAction::SendChatState { user: u2, server: s2, composing: c2 },
        ) => u1@ == u2@ && s1@ == s2@ && c1 == c2,
        (ClientAction::Nothing, ClientAction::Nothing) => true,
        _ => false,
    }
}

/// The client action for a command.
pub fn client_action(command: WhatsAppCommand) -> (r: ClientAction)
    ensures
        same_action(r, action_of(command)),
{
    match command {
        WhatsAppCommand::SendMessage { local_id, chat_jid, text } => match split_jid(chat_jid.0.as_str()) {
            Some((user, server)) => ClientAction::SendText { local_id, chat_jid, user, server, text },
            None => ClientAction::Nothing,
        },
        WhatsAppCommand::SendTyping { chat_jid, typing } => match split_jid(chat_jid.0.as_str()) {
            Some((user, server)) => ClientAction::SendChatState { user, server, composing: typing },
            None => ClientAction::Nothing,
        },
        WhatsAppCommand::MarkAsRead => ClientAction::Nothing,
    }
}

/// The message shown for a message read back from the store, at time `now`
/// when its stored time is out of range.
pub fn restored_message_at(stored: StoredMessage, content: MessageFields, now: Timestamp) -> (r: whatsapp::ChatMessage)
    ensures
        r.id == stored.message_id,
        r.sender == whatsapp::Jid(stored.sender_jid),
        r.chat == whatsapp::Jid(stored.chat_jid),
        same_content(r.content, content_of(content)),
        r.timestamp == (if chrono_accepts_millis(stored.timestamp_ms) {
            (stored.timestamp_ms * 1_000_000) as i128
        } else {
            now
        }),
        r.is_from_me == stored.is_from_me,
        r.status == stored.status,
        r.quoted_message is None,
{
    let timestamp = match clock::from_millis(stored.timestamp_ms) {
        Some(t) => t,
        None => now,
    };
    whatsapp::ChatMessage {
        id: stored.message_id,
        sender: whatsapp::Jid(stored.sender_jid),
        chat: whatsapp::Jid(stored.chat_jid),
        content: parse_message_content(content),
        timestamp,
        is_from_me: stored.is_from_me,
        status: stored.status,
        quoted_message: None,
    }
}

/// The message shown for a message read back from the store; a stored time
/// out of range reads as the current time.
pub fn restored_message(stored: StoredMessage, content: MessageFields) -> (r: whatsapp::ChatMessage)
    ensures
        r.id == stored.message_id,
        r.sender == whatsapp::Jid(stored.sender_jid),
        r.chat == whatsapp::Jid(stored.chat_jid),
        same_content(r.content, content_of(content)),
        chrono_accepts_millis(stored.timestamp_ms) ==> r.timestamp == stored.timestamp_ms * 1_000_000,
        r.is_from_me == stored.is_from_me,
        r.status == stored.status,
        r.quoted_message is None,
{
    let now = clock::now();
    restored_message_at(stored, content, now)
}

/// The service form of a typing state is the same state: idle stays idle,
/// typing stays typing and recording stays recording.
pub proof fn lemma_typing_to_rpc_keeps_state(s: whatsapp::TypingState)
    ensures
        (typing_to_rpc(s) is Idle) == (s is Idle),
        (typing_to_rpc(s) is Typing) == (s is Typing),
        (typing_to_rpc(s) is Recording) == (s is Recording),
{
}

/// The service form of a message status is the same status.
pub proof fn lemma_status_to_rpc_keeps_status(s: whatsapp::MessageStatus)
    ensures
        (status_to_rpc(s) is Pending) == (s is Pending),
        (status_to_rpc(s) is Sent) == (s is Sent),
        (status_to_rpc(s) is Delivered) == (s is Delivered),
        (status_to_rpc(s) is Read) == (s is Read),
        (status_to_rpc(s) is Failed) == (s is Failed),
{
}

/// The service form of a connection state is the same state, with the same
/// QR code or pair code.
pub proof fn lemma_connection_to_rpc_keeps_state(s: whatsapp::ConnectionState)
    ensures
        (connection_to_rpc(s) is Disconnected) == (s is Disconnected),
        (connection_to_rpc(s) is Connecting) == (s is Connecting),
        (connection_to_rpc(s) is WaitingForQr) == (s is WaitingForQr),
        (connection_to_rpc(s) is WaitingForPairCode) == (s is WaitingForPairCode),
        (connection_to_rpc(s) is Connected) == (s is Connected),
        (connection_to_rpc(s) is Reconnecting) == (s is Reconnecting),
        (connection_to_rpc(s) is LoggedOut) == (s is LoggedOut),
        s is WaitingForQr ==> connection_to_rpc(s)->WaitingForQr_qr_code == s->WaitingForQr_qr_code,
        s is WaitingForPairCode ==> connection_to_rpc(s)->WaitingForPairCode_code == s->WaitingForPairCode_code,
{
}

/// The service form of message content keeps its kind and its preview
/// (texts aside, whose previews are measured differently), and a voice note
/// stays a voice note.
pub proof fn lemma_content_to_rpc_keeps_preview(c: whatsapp::MessageContent)
    ensures
        (content_to_rpc(c) is Text) == (c is Text),
        (content_to_rpc(c) is Image) == (c is Image),
        (content_to_rpc(c) is Video) == (c is Video),
        (content_to_rpc(c) is Audio) == (c is Audio),
        (content_to_rpc(c) is Document) == (c is Document),
        (content_to_rpc(c) is Sticker) == (c is Sticker),
        (content_to_rpc(c) is Location) == (c is Location),
        (content_to_rpc(c) is Contact) == (c is Contact),
        (content_to_rpc(c) is System) == (c is System),
        (content_to_rpc(c) is Unknown) == (c is Unknown),
        c is Text ==> content_to_rpc(c)->Text_0 == c->Text_0,
        !(c is Text) ==> preview_of(content_to_rpc(c)) == content_preview(c),
        c is Audio ==> content_to_rpc(c)->Audio_is_voice_note == c->Audio_is_voice_note
            && content_to_rpc(c)->Audio_duration_secs == c->Audio_duration_secs,
{
}

/// A typing indicator is forwarded to the interface for the same chat and
/// sender, in the same state.
pub proof fn lemma_typing_forwarded(chat: whatsapp::Jid, sender: whatsapp::Jid, state: whatsapp::TypingState, n: RpcNotification)
    requires
        notifies(WhatsAppEvent::TypingIndicator { chat_jid: chat, sender_jid: sender, state }, n),
    ensures
        n matches RpcNotification::TypingIndicator { chat_jid, sender_jid, state: s } && chat_jid.0 == chat.0
            && sender_jid.0 == sender.0 && (s is Recording) == (state is Recording) && (s is Typing) == (state is Typing)
            && (s is Idle) == (state is Idle),
{
}

} // verus!
