//! The controller: how each user action and each service notification
//! updates the application state, and what the interface does next.

use vstd::prelude::*;
use crate::clock::{self, Timestamp};
use crate::keyed::stored;
use crate::model::{AppState, ChatMessage, ConnectionState, MessageStatus, TypingState, ViewState};
use crate::model::chat::{pending_id, status_from_rpc};
use crate::model::state::message_manager::{adds_id, after_add, appended, oldest_pos, timeline_of};
use crate::model::state::typing_manager::{cleaned, TypingManager};
use crate::model::state::{
    can_show_chats, chat_updated_from_rpc, chats_from_rpc, connection_shown, contact_renamed, message_from_rpc,
    pending_resolved, status_set_first, status_set_in_chat, to_indicator, view_after_chat_update, Timelines,
};
use crate::rpc::{self, Jid, RpcNotification, RpcRequest};
use crate::text::{concat, string_from};

verus! {

/// Everything that can update the application state.
#[derive(Debug)]
pub enum Message {
    /// The user selected a chat.
    SelectChat(Jid),
    /// The user typed in the message input.
    InputChanged(String),
    /// The user asked to send the typed message.
    SendMessage,
    /// The message list was scrolled: whether it is now at its bottom, and
    /// whether it is at its top.
    MessageListScrolled { at_bottom: bool, near_top: bool },
    /// Periodic timer tick for cleanup.
    Tick,
    /// A notification from the WhatsApp service.
    RpcNotification(RpcNotification),
}

/// What the interface does after an update.
#[derive(Debug, Clone, Copy, PartialEq, Eq, Structural)]
pub enum Followup {
    /// Nothing more.
    Nothing,
    /// Scroll the message list to its end.
    ScrollToBottom,
    /// Hand the state the client handle of the service, now that it runs.
    AttachRpcClient,
}

/// The identifier of the scrollable message list.
pub fn chat_scroll_id() -> (r: &'static str)
    ensures
        r@ == seq!['m', 'e', 's', 's', 'a', 'g', 'e', 's'],
{
    proof {
        reveal_strlit("messages");
    }
    "messages"
}

/// The model form of a service connection state.
pub open spec fn connection_from_rpc(s: rpc::ConnectionState) -> ConnectionState {
    match s {
        rpc::ConnectionState::Disconnected => ConnectionState::Disconnected,
        rpc::ConnectionState::Connecting => ConnectionState::Connecting,
        rpc::ConnectionState::WaitingForQr { qr_code } => ConnectionState::WaitingForQr { qr_code },
        rpc::ConnectionState::WaitingForPairCode { code } => ConnectionState::WaitingForPairCode { code },
        rpc::ConnectionState::Connected => ConnectionState::Connected,
        rpc::ConnectionState::Reconnecting => ConnectionState::Reconnecting,
        rpc::ConnectionState::LoggedOut => ConnectionState::LoggedOut,
    }
}

/// The model form of a service typing state.
pub open spec fn typing_from_rpc(s: rpc::TypingState) -> TypingState {
    match s {
        rpc::TypingState::Idle => TypingState::Idle,
        rpc::TypingState::Typing => TypingState::Typing,
        rpc::TypingState::Recording => TypingState::Recording,
    }
}

/// Converts a service connection state to the model's.
pub fn convert_rpc_connection_state(rpc_state: rpc::ConnectionState) -> (r: ConnectionState)
    ensures
        r == connection_from_rpc(rpc_state),
{
    match rpc_state {
        rpc::ConnectionState::Disconnected => ConnectionState::Disconnected,
        rpc::ConnectionState::Connecting => ConnectionState::Connecting,
        rpc::ConnectionState::WaitingForQr { qr_code } => ConnectionState::WaitingForQr { qr_code },
        rpc::ConnectionState::WaitingForPairCode { code } => ConnectionState::WaitingForPairCode { code },
        rpc::ConnectionState::Connected => ConnectionState::Connected,
        rpc::ConnectionState::Reconnecting => ConnectionState::Reconnecting,
        rpc::ConnectionState::LoggedOut => ConnectionState::LoggedOut,
    }
}

/// Converts a service message status to the model's.
pub fn convert_rpc_message_status(rpc_status: rpc::MessageStatus) -> (r: MessageStatus)
    ensures
        r == status_from_rpc(rpc_status),
{
    match rpc_status {
        rpc::MessageStatus::Pending => MessageStatus::Pending,
        rpc::MessageStatus::Sent => MessageStatus::Sent,
        rpc::MessageStatus::Delivered => MessageStatus::Delivered,
        rpc::MessageStatus::Read => MessageStatus::Read,
        rpc::MessageStatus::Failed => MessageStatus::Failed,
    }
}

/// Converts a service typing state to the model's.
pub fn convert_rpc_typing_state(rpc_state: rpc::TypingState) -> (r: TypingState)
    ensures
        r == typing_from_rpc(rpc_state),
{
    match rpc_state {
        rpc::TypingState::Idle => TypingState::Idle,
        rpc::TypingState::Typing => TypingState::Typing,
        rpc::TypingState::Recording => TypingState::Recording,
    }
}

/// The selected chat has this JID.
pub open spec fn selected_is(s: AppState, chat: Seq<char>) -> bool {
    match s.selected_chat {
        Some(j) => j.0@ == chat,
        None => false,
    }
}

/// What follows a notification: the list scrolls to a new message or typing
/// indicator of the selected chat, and to a sent message, when it was at its
/// bottom; a running service hands over its client.
pub open spec fn notification_followup(n: RpcNotification, s: AppState) -> Followup {
    match n {
        RpcNotification::ServiceReady => Followup::AttachRpcClient,
        RpcNotification::MessageReceived(msg) => if s.is_scrolled_to_bottom && selected_is(s, msg.chat.0@) {
            Followup::ScrollToBottom
        } else {
            Followup::Nothing
        },
        RpcNotification::MessageSent { .. } => if s.is_scrolled_to_bottom {
            Followup::ScrollToBottom
        } else {
            Followup::Nothing
        },
        RpcNotification::TypingIndicator { chat_jid, .. } => if s.is_scrolled_to_bottom && selected_is(
            s,
            chat_jid.0@,
        ) {
            Followup::ScrollToBottom
        } else {
            Followup::Nothing
        },
        _ => Followup::Nothing,
    }
}

/// What follows a message: selecting a chat scrolls to its end.
pub open spec fn followup_of(message: Message, s: AppState) -> Followup {
    match message {
        Message::SelectChat(_) => Followup::ScrollToBottom,
        Message::RpcNotification(n) => notification_followup(n, s),
        _ => Followup::Nothing,
    }
}

/// `Failed to send message: `, the start of the error shown for a failed send.
pub open spec fn send_failed_prefix() -> Seq<char> {
    seq![
        'F', 'a', 'i', 'l', 'e', 'd', ' ', 't', 'o', ' ', 's', 'e', 'n', 'd', ' ', 'm', 'e', 's', 's', 'a',
        'g', 'e', ':', ' ',
    ]
}

/// `Not connected to WhatsApp`, the error shown when a message cannot be sent.
pub open spec fn not_connected_text() -> Seq<char> {
    seq![
        'N', 'o', 't', ' ', 'c', 'o', 'n', 'n', 'e', 'c', 't', 'e', 'd', ' ', 't', 'o', ' ', 'W', 'h', 'a',
        't', 's', 'A', 'p', 'p',
    ]
}

/// The connection state, the service client and the QR code are unchanged.
pub open spec fn same_link(new: AppState, old: AppState) -> bool {
    &&& new.connection == old.connection
    &&& new.rpc_client == old.rpc_client
    &&& new.qr_code == old.qr_code
}

/// The view, the QR code and the error are unchanged.
pub open spec fn same_screen(new: AppState, old: AppState) -> bool {
    &&& new.view == old.view
    &&& new.qr_code == old.qr_code
    &&& new.error == old.error
}

/// Everything but the chat list and the view is unchanged.
pub open spec fn chats_kept_apart(new: AppState, old: AppState) -> bool {
    &&& new.previews() == old.previews()
    &&& new.same_messages(&old)
    &&& new.same_ui(&old)
    &&& new.same_typing(&old)
    &&& new.same_sync(&old)
    &&& same_link(new, old)
    &&& new.error == old.error
}

/// Everything but the messages is unchanged.
pub open spec fn messages_kept_apart(new: AppState, old: AppState) -> bool {
    &&& new.same_chats(&old)
    &&& new.same_ui(&old)
    &&& new.same_typing(&old)
    &&& new.same_sync(&old)
    &&& new.same_connection(&old)
}

/// Everything but the sync progress is unchanged.
pub open spec fn sync_kept_apart(new: AppState, old: AppState) -> bool {
    &&& new.same_chats(&old)
    &&& new.same_messages(&old)
    &&& new.same_ui(&old)
    &&& new.same_typing(&old)
    &&& new.same_connection(&old)
}

/// How a notification shows in the state.
pub open spec fn notification_applied(n: RpcNotification, old: AppState, new: AppState, now: Timestamp) -> bool {
    match n {
        RpcNotification::ConnectionStateChanged(s) => {
            &&& new.connection == connection_from_rpc(s)
            &&& connection_shown(
                connection_from_rpc(s),
                (old.view, old.qr_code, old.error),
                (new.view, new.qr_code, new.error),
            )
            &&& new.rpc_client == old.rpc_client
            &&& new.same_data(&old)
        },
        RpcNotification::QrCodeReceived { qr_code } => {
            &&& new.qr_code == Some(qr_code)
            &&& new.connection == old.connection
            &&& new.rpc_client == old.rpc_client
            &&& new.view == old.view
            &&& new.error == old.error
            &&& new.same_data(&old)
        },
        RpcNotification::Disconnected => {
            &&& new.rpc_client is None
            &&& new.connection == old.connection
            &&& same_screen(new, old)
            &&& new.same_data(&old)
        },
        RpcNotification::LoggedOut => {
            &&& new.rpc_client is None
            &&& new.connection == old.connection
            &&& same_screen(new, old)
            &&& new.same_data(&old)
        },
        RpcNotification::MessageSendFailed { local_id, chat_jid, error } => {
            &&& status_set_in_chat(old.timelines(), new.timelines(), chat_jid.0@, local_id@, MessageStatus::Failed)
            &&& new.error matches Some(e) && e@ == send_failed_prefix() + error@
            &&& same_link(new, old)
            &&& new.view == old.view
            &&& new.same_chats(&old)
            &&& new.same_ui(&old)
            &&& new.same_typing(&old)
            &&& new.same_sync(&old)
        },
        RpcNotification::ChatsUpdated(chats) => {
            &&& chats_from_rpc(chats@, new.chats@)
            &&& new.view == (if chats@.len() > 0 && can_show_chats(old.connection) {
                ViewState::Chats
            } else {
                old.view
            })
            &&& chats_kept_apart(new, old)
        },
        RpcNotification::ChatUpdated(chat) => {
            &&& chat_updated_from_rpc(old.chats@, new.chats@, chat)
            &&& new.view == view_after_chat_update(old.view, old.connection)
            &&& chats_kept_apart(new, old)
        },
        RpcNotification::ContactNameUpdated { jid, name } => {
            &&& contact_renamed(old.chats@, new.chats@, jid.0@, name@)
            &&& new.view == old.view
            &&& chats_kept_apart(new, old)
        },
        RpcNotification::TypingIndicator { chat_jid, sender_jid, state } => {
            &&& new.typing() == TypingManager::after_set(
                old.typing(),
                chat_jid.0,
                sender_jid.0,
                to_indicator(typing_from_rpc(state)),
                now,
            )
            &&& new.same_chats(&old)
            &&& new.same_messages(&old)
            &&& new.same_ui(&old)
            &&& new.same_sync(&old)
            &&& new.same_connection(&old)
        },
        RpcNotification::HistorySyncProgress { current, total } => {
            &&& new.sync_in_progress
            &&& new.sync_progress == Some((current, if total >= current { total } else { current }))
            &&& new.sync_last_update() == Some(now)
            &&& sync_kept_apart(new, old)
        },
        RpcNotification::HistorySyncCompleted => {
            &&& !new.sync_in_progress
            &&& new.sync_progress is None
            &&& new.sync_last_update() is None
            &&& sync_kept_apart(new, old)
        },
        RpcNotification::Error(e) => {
            &&& new.error == Some(e)
            &&& same_link(new, old)
            &&& new.view == old.view
            &&& new.same_data(&old)
        },
        RpcNotification::MessageStatusUpdated { message_id, status, .. } => {
            &&& status_set_first(old.timelines(), new.timelines(), message_id@, status_from_rpc(status))
            &&& messages_kept_apart(new, old)
        },
        RpcNotification::MessageReceived(msg) => {
            &&& exists|cm: crate::model::ChatMessage|
                message_from_rpc(msg, cm) && #[trigger] after_add(old.timelines(), msg.chat.0, cm, new.timelines())
                    && (adds_id(old.timelines(), msg.chat.0@, msg.id@) ==> AppState::preview_applied(
                    &old,
                    &new,
                    msg.chat,
                    cm.content,
                    cm.timestamp,
                ))
            &&& !adds_id(old.timelines(), msg.chat.0@, msg.id@) ==> new.same_chats(&old) && new.view == old.view
            &&& new.selected_chat == old.selected_chat
            &&& new.input_value == old.input_value
            &&& new.is_scrolled_to_bottom == old.is_scrolled_to_bottom
            &&& new.ignore_scroll() == old.ignore_scroll()
            &&& new.requests() == old.requests()
            &&& new.same_typing(&old)
            &&& new.same_sync(&old)
            &&& same_link(new, old)
            &&& new.error == old.error
        },
        RpcNotification::MessageSent { local_id, message_id, chat_jid } => {
            &&& exists|mid: Timelines|
                #[trigger] pending_resolved(old.timelines(), mid, chat_jid.0@, local_id@, message_id@)
                    && status_set_first(mid, new.timelines(), message_id@, MessageStatus::Sent)
            &&& messages_kept_apart(new, old)
        },
        _ => new.same_data(&old) && new.same_connection(&old),
    }
}

/// Applies a service notification at time `now`.
pub fn handle_rpc_notification_at(state: &mut AppState, notification: RpcNotification, now: Timestamp) -> (r: Followup)
    requires
        old(state).wf(),
    ensures
        final(state).wf(),
        r == notification_followup(notification, *old(state)),
        notification_applied(notification, *old(state), *final(state), now),
{
    let ghost before = *state;
    match notification {
        RpcNotification::ServiceReady => Followup::AttachRpcClient,
        RpcNotification::ConnectionStateChanged(rpc_state) => {
            let connection_state = convert_rpc_connection_state(rpc_state);
            state.set_connection_state(connection_state);
            Followup::Nothing
        },
        RpcNotification::QrCodeReceived { qr_code } => {
            state.qr_code = Some(qr_code);
            assert(state.same_data(&before));
            Followup::Nothing
        },
        RpcNotification::Connected => Followup::Nothing,
        RpcNotification::Disconnected => {
            state.clear_rpc_client();
            Followup::Nothing
        },
        RpcNotification::LoggedOut => {
            state.clear_rpc_client();
            Followup::Nothing
        },
        RpcNotification::MessageReceived(msg) => {
            let should_scroll = state.should_auto_scroll();
            let is_for_selected = match &state.selected_chat {
                Some(s) => s.0 == msg.chat.0,
                None => false,
            };
            state.add_rpc_message(msg);
            if should_scroll && is_for_selected {
                Followup::ScrollToBottom
            } else {
                Followup::Nothing
            }
        },
        RpcNotification::MessageSent { local_id, message_id, chat_jid } => {
            let should_scroll = state.should_auto_scroll();
            state.resolve_pending_message_id(&chat_jid, local_id.as_str(), message_id.as_str());
            let ghost mid = state.timelines();
            state.update_message_status(message_id.as_str(), MessageStatus::Sent);
            assert(pending_resolved(before.timelines(), mid, chat_jid.0@, local_id@, message_id@));
            if should_scroll {
                Followup::ScrollToBottom
            } else {
                Followup::Nothing
            }
        },
        RpcNotification::MessageSendFailed { local_id, chat_jid, error } => {
            state.update_specific_message_status(&chat_jid, local_id.as_str(), MessageStatus::Failed);
            let prefix = string_from(
                vec![
                    'F', 'a', 'i', 'l', 'e', 'd', ' ', 't', 'o', ' ', 's', 'e', 'n', 'd', ' ', 'm', 'e', 's',
                    's', 'a', 'g', 'e', ':', ' ',
                ],
            );
            let text = concat(prefix.as_str(), error.as_str());
            state.set_error(text);
            assert(state.error matches Some(e) && e@ == send_failed_prefix() + error@);
            Followup::Nothing
        },
        RpcNotification::MessageStatusUpdated { message_id, status, .. } => {
            state.update_message_status(message_id.as_str(), convert_rpc_message_status(status));
            Followup::Nothing
        },
        RpcNotification::ChatsUpdated(chats) => {
            state.set_chats_from_rpc(chats);
            Followup::Nothing
        },
        RpcNotification::ChatUpdated(chat) => {
            state.update_chat_from_rpc(chat);
            Followup::Nothing
        },
        RpcNotification::ContactNameUpdated { jid, name } => {
            state.update_contact_name(&jid, name.as_str());
            Followup::Nothing
        },
        RpcNotification::TypingIndicator { chat_jid, sender_jid, state: typing_state } => {
            let should_scroll = state.should_auto_scroll();
            let is_for_selected = match &state.selected_chat {
                Some(s) => s.0 == chat_jid.0,
                None => false,
            };
            state.set_typing_at(chat_jid, sender_jid, convert_rpc_typing_state(typing_state), now);
            if should_scroll && is_for_selected {
                Followup::ScrollToBottom
            } else {
                Followup::Nothing
            }
        },
        RpcNotification::PresenceUpdated(_) => Followup::Nothing,
        RpcNotification::HistorySyncProgress { current, total } => {
            state.set_sync_progress_at(current, total, now);
            Followup::Nothing
        },
        RpcNotification::HistorySyncCompleted => {
            state.finish_sync();
            Followup::Nothing
        },
        RpcNotification::Error(error) => {
            state.set_error(error);
            Followup::Nothing
        },
        RpcNotification::PairCodeReceived { .. } => Followup::Nothing,
    }
}

/// Applies a service notification now.
pub fn handle_rpc_notification(state: &mut AppState, notification: RpcNotification) -> (r: Followup)
    requires
        old(state).wf(),
    ensures
        final(state).wf(),
        r == notification_followup(notification, *old(state)),
        exists|now: Timestamp| #[trigger] notification_applied(notification, *old(state), *final(state), now),
{
    let now = clock::now();
    handle_rpc_notification_at(state, notification, now)
}

/// The selected chat and its oldest message, from which older history is
/// fetched; none when no chat is selected or it has no messages.
pub open spec fn history_cursor(s: AppState) -> Option<(Jid, ChatMessage)> {
    match s.selected_chat {
        Some(j) => match timeline_of(s.timelines(), j.0@) {
            Some(l) => if l.len() > 0 {
                Some((j, l[oldest_pos(l)]))
            } else {
                None
            },
            None => None,
        },
        None => None,
    }
}

/// The request for 100 messages of `chat` older than its message `oldest`.
pub open spec fn fetch_request(chat: Jid, oldest: ChatMessage) -> RpcRequest {
    RpcRequest::FetchHistory {
        chat_jid: chat,
        oldest_msg_id: oldest.id,
        oldest_msg_from_me: oldest.is_from_me,
        oldest_msg_timestamp_ms: clock::millis_of(oldest.timestamp as int) as i64,
        count: 100,
    }
}

/// A scroll near the top starts a request for older history from the
/// cursor, when one is allowed at `now`: it is recorded, older messages are
/// loading, and the client, when there is one, is offered the fetch
/// request. Otherwise the requests, the loading state and the client stay.
pub open spec fn older_history_requested(old: AppState, new: AppState, near_top: bool, now: Timestamp) -> bool {
    let unchanged = new.requests() == old.requests() && new.loading_older_messages == old.loading_older_messages
        && new.loading_since() == old.loading_since() && new.rpc_client == old.rpc_client;
    match history_cursor(old) {
        Some(c) => {
            let chat = c.0;
            let oldest = c.1;
            if near_top && old.history_request_allowed(chat.0@, oldest.id@, now as int) {
                &&& exists|id: String|
                    id@ == oldest.id@ && new.requests() == #[trigger] stored(old.requests(), chat.0, (id, now))
                &&& new.loading_older_messages
                &&& new.loading_since() == Some(now)
                &&& match old.rpc_client {
                    Some(c) => new.rpc_client matches Some(n) && n.offered() == c.offered().push(
                        fetch_request(chat, oldest),
                    ),
                    None => new.rpc_client is None,
                }
            } else {
                unchanged
            }
        },
        None => unchanged,
    }
}

/// Sending the typed text at `now` adds it to the selected chat as a pending
/// message under a local id and shows it as the chat's preview; without a
/// client the message is marked failed and an error is shown.
pub open spec fn message_queued(old: AppState, new: AppState, now: Timestamp) -> bool {
    let chat = old.selected_chat->0;
    exists|msg: ChatMessage|
        #![trigger appended(old.timelines(), chat.0, msg)]
        {
            &&& msg.id@ == pending_id(now as int)
            &&& msg.is_from_me
            &&& msg.content == old.input_value
            &&& msg.timestamp == now
            &&& msg.status == MessageStatus::Pending
            &&& AppState::preview_applied(&old, &new, chat, old.input_value, now)
            &&& if let Some(c) = old.rpc_client {
                &&& new.timelines() == appended(old.timelines(), chat.0, msg)
                &&& new.rpc_client matches Some(n) && n.offered() == c.offered().push(
                    RpcRequest::SendMessage { local_id: msg.id, chat_jid: chat, text: old.input_value },
                )
                &&& new.error == old.error
            } else {
                &&& status_set_in_chat(
                    appended(old.timelines(), chat.0, msg),
                    new.timelines(),
                    chat.0@,
                    msg.id@,
                    MessageStatus::Failed,
                )
                &&& new.error matches Some(e) && e@ == not_connected_text()
                &&& new.rpc_client is None
            }
        }
}

/// How a message shows in the state.
pub open spec fn message_applied(message: Message, old: AppState, new: AppState, now: Timestamp) -> bool {
    match message {
        Message::SelectChat(jid) => {
            &&& new.selected_chat == Some(jid)
            &&& new.ignore_scroll()
            &&& !new.loading_older_messages
            &&& new.loading_since() is None
            &&& new.is_scrolled_to_bottom
            &&& new.input_value == old.input_value
            &&& new.requests() == old.requests()
            &&& new.same_chats(&old)
            &&& new.same_messages(&old)
            &&& new.same_typing(&old)
            &&& new.same_sync(&old)
            &&& new.same_connection(&old)
        },
        Message::InputChanged(value) => {
            &&& new.input_value == value
            &&& new.selected_chat == old.selected_chat
            &&& new.is_scrolled_to_bottom == old.is_scrolled_to_bottom
            &&& new.ignore_scroll() == old.ignore_scroll()
            &&& new.loading_older_messages == old.loading_older_messages
            &&& new.loading_since() == old.loading_since()
            &&& new.requests() == old.requests()
            &&& new.same_chats(&old)
            &&& new.same_messages(&old)
            &&& new.same_typing(&old)
            &&& new.same_sync(&old)
            &&& new.same_connection(&old)
        },
        Message::SendMessage => if old.input_value@.len() > 0 && old.selected_chat is Some {
            &&& new.input_value@.len() == 0
            &&& message_queued(old, new, now)
            &&& new.selected_chat == old.selected_chat
            &&& new.is_scrolled_to_bottom == old.is_scrolled_to_bottom
            &&& new.ignore_scroll() == old.ignore_scroll()
            &&& new.loading_older_messages == old.loading_older_messages
            &&& new.loading_since() == old.loading_since()
            &&& new.requests() == old.requests()
            &&& new.same_typing(&old)
            &&& new.same_sync(&old)
            &&& new.connection == old.connection
            &&& new.qr_code == old.qr_code
        } else {
            &&& new.input_value == old.input_value
            &&& new.selected_chat == old.selected_chat
            &&& new.is_scrolled_to_bottom == old.is_scrolled_to_bottom
            &&& new.ignore_scroll() == old.ignore_scroll()
            &&& new.loading_older_messages == old.loading_older_messages
            &&& new.loading_since() == old.loading_since()
            &&& new.requests() == old.requests()
            &&& new.same_chats(&old)
            &&& new.same_messages(&old)
            &&& new.same_typing(&old)
            &&& new.same_sync(&old)
            &&& new.same_connection(&old)
        },
        Message::MessageListScrolled { at_bottom, near_top } => if old.ignore_scroll() {
            &&& !new.ignore_scroll()
            &&& new.selected_chat == old.selected_chat
            &&& new.input_value == old.input_value
            &&& new.is_scrolled_to_bottom == old.is_scrolled_to_bottom
            &&& new.loading_older_messages == old.loading_older_messages
            &&& new.loading_since() == old.loading_since()
            &&& new.requests() == old.requests()
            &&& new.same_chats(&old)
            &&& new.same_messages(&old)
            &&& new.same_typing(&old)
            &&& new.same_sync(&old)
            &&& new.same_connection(&old)
        } else {
            &&& new.is_scrolled_to_bottom == at_bottom
            &&& !new.ignore_scroll()
            &&& older_history_requested(old, new, near_top, now)
            &&& new.selected_chat == old.selected_chat
            &&& new.input_value == old.input_value
            &&& new.same_chats(&old)
            &&& new.same_messages(&old)
            &&& new.same_typing(&old)
            &&& new.same_sync(&old)
            &&& new.connection == old.connection
            &&& same_screen(new, old)
        },
        Message::Tick => AppState::cleaned_up(old, new, now),
        Message::RpcNotification(n) => notification_applied(n, old, new, now),
    }
}

/// Processes a message at time `now`, updating the state; gives what the
/// interface does next.
pub fn update_at(state: &mut AppState, message: Message, now: Timestamp) -> (r: Followup)
    requires
        old(state).wf(),
    ensures
        final(state).wf(),
        r == followup_of(message, *old(state)),
        message_applied(message, *old(state), *final(state), now),
{
    match message {
        Message::SelectChat(jid) => {
            state.select_chat(jid);
            Followup::ScrollToBottom
        },
        Message::InputChanged(value) => {
            state.set_input(value);
            Followup::Nothing
        },
        Message::SendMessage => {
            let ghost before = *state;
            match state.take_message_to_send() {
                Some((jid, text)) => {
                    let ghost taken = *state;
                    let local_id = state.add_pending_message_at(&jid, text.clone(), now);
                    let ghost added = *state;
                    let ghost msg = choose|msg: ChatMessage|
                        msg.id == local_id && msg.is_from_me && msg.content == text && msg.timestamp == now
                            && msg.status == MessageStatus::Pending && added.timelines() == #[trigger] appended(
                            taken.timelines(),
                            jid.0,
                            msg,
                        );
                    assert(taken.timelines() == before.timelines());
                    match &mut state.rpc_client {
                        Some(client) => {
                            client.send(RpcRequest::SendMessage { local_id, chat_jid: jid, text });
                        },
                        None => {
                            state.update_specific_message_status(&jid, local_id.as_str(), MessageStatus::Failed);
                            let error = string_from(
                                vec![
                                    'N', 'o', 't', ' ', 'c', 'o', 'n', 'n', 'e', 'c', 't', 'e', 'd', ' ', 't', 'o',
                                    ' ', 'W', 'h', 'a', 't', 's', 'A', 'p', 'p',
                                ],
                            );
                            state.set_error(error);
                        },
                    }
                    assert(AppState::preview_applied(&before, &*state, jid, before.input_value, now));
                    assert(message_queued(before, *state, now)) by {
                        assert(appended(before.timelines(), jid.0, msg) == added.timelines());
                    }
                },
                None => {},
            }
            assert(message_applied(Message::SendMessage, before, *state, now));
            Followup::Nothing
        },
        Message::MessageListScrolled { at_bottom, near_top } => {
            let ghost before = *state;
            if state.consume_scroll_ignore_flag() {
                return Followup::Nothing;
            }
            let _is_at_bottom = state.set_scrolled_to_bottom(at_bottom);
            let ghost scrolled = *state;
            assert(scrolled.timelines() == before.timelines());
            if near_top {
                match state.selected_chat_history_cursor() {
                    Some((chat_jid, oldest_msg_id, oldest_msg_from_me, oldest_msg_timestamp_ms)) => {
                        assert(history_cursor(before) matches Some(c) && c.0 == chat_jid && c.1.id == oldest_msg_id
                            && fetch_request(c.0, c.1) == (RpcRequest::FetchHistory {
                            chat_jid,
                            oldest_msg_id,
                            oldest_msg_from_me,
                            oldest_msg_timestamp_ms,
                            count: 100,
                        }));
                        if state.start_older_history_request_if_allowed_at(&chat_jid, oldest_msg_id.as_str(), now) {
                            match &mut state.rpc_client {
                                Some(client) => {
                                    client.send(
                                        RpcRequest::FetchHistory {
                                            chat_jid,
                                            oldest_msg_id,
                                            oldest_msg_from_me,
                                            oldest_msg_timestamp_ms,
                                            count: 100,
                                        },
                                    );
                                },
                                None => {},
                            }
                        }
                    },
                    None => {},
                }
            }
            assert(older_history_requested(before, *state, near_top, now));
            Followup::Nothing
        },
        Message::Tick => {
            state.cleanup_temporary_state_at(now);
            Followup::Nothing
        },
        Message::RpcNotification(notification) => handle_rpc_notification_at(state, notification, now),
    }
}

/// Processes a message now, updating the state; gives what the interface
/// does next.
pub fn update(state: &mut AppState, message: Message) -> (r: Followup)
    requires
        old(state).wf(),
    ensures
        final(state).wf(),
        r == followup_of(message, *old(state)),
        exists|now: Timestamp| #[trigger] message_applied(message, *old(state), *final(state), now),
{
    let now = clock::now();
    update_at(state, message, now)
}

/// The model form of a service typing state is the same state.
pub proof fn lemma_typing_from_rpc_keeps_state(s: rpc::TypingState)
    ensures
        (typing_from_rpc(s) is Idle) == (s is Idle),
        (typing_from_rpc(s) is Typing) == (s is Typing),
        (typing_from_rpc(s) is Recording) == (s is Recording),
{
}

/// The model form of a service message status is the same status.
pub proof fn lemma_status_from_rpc_keeps_status(s: rpc::MessageStatus)
    ensures
        (status_from_rpc(s) is Pending) == (s is Pending),
        (status_from_rpc(s) is Sent) == (s is Sent),
        (status_from_rpc(s) is Delivered) == (s is Delivered),
        (status_from_rpc(s) is Read) == (s is Read),
        (status_from_rpc(s) is Failed) == (s is Failed),
{
}

/// The model form of a service connection state is the same state, with
/// the same QR code or pair code.
pub proof fn lemma_connection_from_rpc_keeps_state(s: rpc::ConnectionState)
    ensures
        (connection_from_rpc(s) is Disconnected) == (s is Disconnected),
        (connection_from_rpc(s) is Connecting) == (s is Connecting),
        (connection_from_rpc(s) is WaitingForQr) == (s is WaitingForQr),
        (connection_from_rpc(s) is WaitingForPairCode) == (s is WaitingForPairCode),
        (connection_from_rpc(s) is Connected) == (s is Connected),
        (connection_from_rpc(s) is Reconnecting) == (s is Reconnecting),
        (connection_from_rpc(s) is LoggedOut) == (s is LoggedOut),
        s is WaitingForQr ==> connection_from_rpc(s)->WaitingForQr_qr_code == s->WaitingForQr_qr_code,
        s is WaitingForPairCode ==> connection_from_rpc(s)->WaitingForPairCode_code == s->WaitingForPairCode_code,
{
}

} // verus!
