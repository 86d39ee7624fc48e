//! Central application state: the single source of truth that the views
//! read and the controller updates.

pub mod chat_manager;
pub mod message_manager;
pub mod sync_manager;
pub mod typing_manager;

use vstd::prelude::*;
use crate::clock::{self, Timestamp};
use crate::keyed::{lookup, stored, StrMap};
use crate::model::chat::{pending_id, pending_id_at, status_from_rpc, text_or_empty, Chat, ChatMessage, MessageStatus};
use crate::model::connection::{pairing_needed, ConnectionState, ViewState};
use crate::rpc::types::{jid_normalized_user, preview_of};
use crate::rpc::{self, Jid, RpcClientHandle};
use crate::text::{chars_of, trim, trimmed};
use message_manager::{
    add_to_timeline, adds, adds_id, after_add, append_to_timeline, appended, first_chat_with_id, first_with_id,
    has_id, oldest_index, oldest_pos, resolve_in_chat, resolved, set_status_anywhere, set_status_in_chat,
    timeline_of, timelines, with_status,
};
use typing_manager::{active_senders, cleaned, TypingEntry, TypingManager};

verus! {

/// Typing indicator state.
#[derive(Debug, Clone, Copy, PartialEq, Eq, Structural)]
pub enum TypingState {
    Idle,
    Typing,
    Recording,
}

/// The indicator state as the typing manager keeps it.
pub open spec fn to_indicator(s: TypingState) -> typing_manager::TypingState {
    match s {
        TypingState::Idle => typing_manager::TypingState::Idle,
        TypingState::Typing => typing_manager::TypingState::Typing,
        TypingState::Recording => typing_manager::TypingState::Recording,
    }
}

/// The model state of an indicator.
pub open spec fn from_indicator(s: typing_manager::TypingState) -> TypingState {
    match s {
        typing_manager::TypingState::Idle => TypingState::Idle,
        typing_manager::TypingState::Typing => TypingState::Typing,
        typing_manager::TypingState::Recording => TypingState::Recording,
    }
}

/// Seconds a typing indicator stays without a new report.
pub open spec fn typing_expiry_seconds() -> i64 {
    8
}

/// Nanoseconds after which a sync without progress is considered finished.
pub open spec fn sync_stale_nanos() -> int {
    8_000_000_000
}

/// Nanoseconds after which loading older messages is considered finished.
pub open spec fn loading_stale_nanos() -> int {
    6_000_000_000
}

/// Whether an activity that is running and was last updated at `since` has
/// gone without update for more than `span` nanoseconds at `now`.
pub open spec fn stale_since(running: bool, since: Option<Timestamp>, now: int, span: int) -> bool {
    running && match since {
        Some(t) => now - t > span,
        None => false,
    }
}

/// Nanoseconds within which the same history cursor is not requested again.
pub open spec fn history_dedup_nanos() -> int {
    3_000_000_000
}

/// The position of the first chat with JID `jid` (the length when there is none).
pub open spec fn model_chat_pos(s: Seq<Chat>, jid: Seq<char>) -> int {
    if has_model_chat(s, jid) {
        choose|i: int|
            0 <= i < s.len() && s[i].jid.0@ == jid && forall|j: int| 0 <= j < i ==> #[trigger] s[j].jid.0@ != jid
    } else {
        s.len() as int
    }
}

/// Some chat of `s` has JID `jid`.
pub open spec fn has_model_chat(s: Seq<Chat>, jid: Seq<char>) -> bool {
    exists|i: int| 0 <= i < s.len() && #[trigger] s[i].jid.0@ == jid
}

/// The position of the first chat of `v` with JID `jid`.
pub fn find_model_chat(v: &Vec<Chat>, jid: &Jid) -> (r: Option<usize>)
    ensures
        r is None <==> !has_model_chat(v@, jid.0@),
        r matches Some(i) ==> i < v@.len() && i == model_chat_pos(v@, jid.0@),
{
    let mut i: usize = 0;
    while i < v.len()
        invariant
            0 <= i <= v@.len(),
            forall|j: int| 0 <= j < i ==> #[trigger] v@[j].jid.0@ != jid.0@,
        decreases v@.len() - i,
    {
        if v[i].jid == *jid {
            proof {
                let s = v@;
                assert(has_model_chat(s, jid.0@));
                let c = model_chat_pos(s, jid.0@);
                assert(c == i) by {
                    if c < i {
                        assert(s[c].jid.0@ != jid.0@);
                    }
                    if c > i {
                        assert(s[i as int].jid.0@ != jid.0@);
                    }
                }
            }
            return Some(i);
        }
        i = i + 1;
    }
    None
}

/// A contact-name update for `jid` applies to chat `c`: same JID or same
/// normalized user, and a different name.
pub open spec fn model_rename_applies(c: Chat, jid: Seq<char>, name: Seq<char>) -> bool {
    (c.jid.0@ == jid || jid_normalized_user(c.jid.0@) == jid_normalized_user(jid)) && c.name@ != name
}

/// The chats can be shown in this connection state (not while pairing).
pub open spec fn can_show_chats(c: ConnectionState) -> bool {
    !pairing_needed(c)
}

/// The model chat for a service chat (see `Chat::from_rpc`).
pub open spec fn chat_from_rpc(c: rpc::Chat, m: Chat) -> bool {
    &&& m.jid == c.jid
    &&& m.name == c.name
    &&& m.last_message@ == text_or_empty(c.last_message)
    &&& m.last_activity == c.last_activity
    &&& m.unread_count == c.unread_count
    &&& m.is_pinned == c.is_pinned
}

/// The model message for a service message (see `ChatMessage::from_rpc`).
pub open spec fn message_from_rpc(msg: rpc::ChatMessage, m: ChatMessage) -> bool {
    &&& m.id == msg.id
    &&& m.is_from_me == msg.is_from_me
    &&& m.content@ == preview_of(msg.content)
    &&& m.timestamp == msg.timestamp
    &&& m.status == status_from_rpc(msg.status)
}

/// The view after an update of the chat list: the chats, when they can be shown.
pub open spec fn view_after_chat_update(old_view: ViewState, connection: ConnectionState) -> ViewState {
    if can_show_chats(connection) {
        ViewState::Chats
    } else {
        old_view
    }
}

/// The messages of every chat, keyed by chat.
pub type Timelines = Seq<(String, Seq<ChatMessage>)>;

/// `new` is `c` with `status` set on the first message with id `id`, in the
/// first chat that has such a message; `c` itself when no chat has one.
pub open spec fn status_set_first(c: Timelines, new: Timelines, id: Seq<char>, status: MessageStatus) -> bool {
    let k = first_chat_with_id(c, id);
    if k < c.len() {
        new == c.update(k, (c[k].0, with_status(c[k].1, first_with_id(c[k].1, id), status)))
    } else {
        new == c
    }
}

/// `new` is `c` with `status` set on the first message with id `id` of chat
/// `chat`; `c` itself when that chat has no such message.
pub open spec fn status_set_in_chat(c: Timelines, new: Timelines, chat: Seq<char>, id: Seq<char>, status: MessageStatus) -> bool {
    let k = crate::keyed::key_pos(c, chat);
    if timeline_of(c, chat) matches Some(l) && has_id(l, id) {
        new == c.update(k, (c[k].0, with_status(c[k].1, first_with_id(c[k].1, id), status)))
    } else {
        new == c
    }
}

/// `new` is `c` with the first message `local` of chat `chat` renamed to
/// `server` and marked sent; `c` itself when that chat has no such message.
pub open spec fn pending_resolved(c: Timelines, new: Timelines, chat: Seq<char>, local: Seq<char>, server: Seq<char>) -> bool {
    let k = crate::keyed::key_pos(c, chat);
    if timeline_of(c, chat) matches Some(l) && has_id(l, local) {
        exists|l2: Seq<ChatMessage>|
            #[trigger] resolved(c[k].1, first_with_id(c[k].1, local), l2, server) && new == c.update(k, (c[k].0, l2))
    } else {
        new == c
    }
}

/// The chat list `new` is `old` after a contact-name update of `jid` to
/// `name`: every chat that the update applies to takes the trimmed name; a
/// name that is empty once trimmed changes nothing.
pub open spec fn contact_renamed(old: Seq<Chat>, new: Seq<Chat>, jid: Seq<char>, name: Seq<char>) -> bool {
    &&& new.len() == old.len()
    &&& trimmed(name).len() == 0 ==> new == old
    &&& trimmed(name).len() > 0 ==> forall|i: int|
        0 <= i < old.len() ==> (if model_rename_applies(#[trigger] old[i], jid, trimmed(name)) {
            new[i] == Chat { name: new[i].name, ..old[i] } && new[i].name@ == trimmed(name)
        } else {
            new[i] == old[i]
        })
}

/// The chat list `new` holds the service's `chats`, in order.
pub open spec fn chats_from_rpc(chats: Seq<rpc::Chat>, new: Seq<Chat>) -> bool {
    &&& new.len() == chats.len()
    &&& forall|i: int| 0 <= i < chats.len() ==> chat_from_rpc(chats[i], #[trigger] new[i])
}

/// The chat list `new` is `old` with the service chat `chat` in place of the
/// first chat with its JID, or appended.
pub open spec fn chat_updated_from_rpc(old: Seq<Chat>, new: Seq<Chat>, chat: rpc::Chat) -> bool {
    exists|m: Chat|
        #[trigger] chat_from_rpc(chat, m) && (has_model_chat(old, chat.jid.0@) ==> new == old.update(
            model_chat_pos(old, chat.jid.0@),
            m,
        )) && (!has_model_chat(old, chat.jid.0@) ==> new == old.push(m))
}

/// The view, QR code and error after recording connection state `state`:
/// connected shows the chats and clears the QR code and the error; a QR code
/// or pair code shows the pairing screen; logging out shows the pairing
/// screen without a QR code; disconnecting shows the loading screen; other
/// states keep the view.
pub open spec fn connection_shown(
    state: ConnectionState,
    old: (ViewState, Option<String>, Option<String>),
    new: (ViewState, Option<String>, Option<String>),
) -> bool {
    match state {
        ConnectionState::Connected => new.0 == ViewState::Chats && new.1 is None && new.2 is None,
        ConnectionState::WaitingForQr { qr_code } => new.0 == ViewState::Pairing && new.1 == Some(qr_code)
            && new.2 == old.2,
        ConnectionState::WaitingForPairCode { .. } => new.0 == ViewState::Pairing && new.1 == old.1 && new.2
            == old.2,
        ConnectionState::LoggedOut => new.0 == ViewState::Pairing && new.1 is None && new.2 == old.2,
        ConnectionState::Disconnected => new.0 == ViewState::Loading && new.1 == old.1 && new.2 == old.2,
        _ => new == old,
    }
}

/// Central application state.
pub struct AppState {
    pub connection: ConnectionState,
    pub rpc_client: Option<RpcClientHandle>,
    pub view: ViewState,
    pub qr_code: Option<String>,
    pub error: Option<String>,
    pub sync_in_progress: bool,
    pub sync_progress: Option<(u32, u32)>,
    pub sync_last_update: Option<Timestamp>,
    pub chats: Vec<Chat>,
    pub selected_chat: Option<Jid>,
    pub messages: StrMap<Vec<ChatMessage>>,
    pub chat_preview_timestamps: StrMap<Timestamp>,
    pub input_value: String,
    pub typing_indicators: TypingManager,
    pub ignore_next_scroll_event: bool,
    pub history_request_state: StrMap<(String, Timestamp)>,
    pub loading_older_messages: bool,
    pub older_loading_updated_at: Option<Timestamp>,
    /// Whether the message list is scrolled to the bottom (within threshold)
    pub is_scrolled_to_bottom: bool,
}

impl AppState {
    /// When the sync progress was last reported.
    pub open spec fn sync_last_update(&self) -> Option<Timestamp> {
        self.sync_last_update
    }

    /// Per chat key, the time of the preview shown in the chat list.
    pub open spec fn previews(&self) -> Seq<(String, Timestamp)> {
        self.chat_preview_timestamps@
    }

    /// The typing indicators per chat and sender.
    pub open spec fn typing(&self) -> Seq<(String, Seq<(String, TypingEntry)>)> {
        self.typing_indicators.chats()
    }

    /// Whether the next scroll event is to be ignored.
    pub open spec fn ignore_scroll(&self) -> bool {
        self.ignore_next_scroll_event
    }

    /// The last older-history request per chat: the oldest message id, and when.
    pub open spec fn requests(&self) -> Seq<(String, (String, Timestamp))> {
        self.history_request_state@
    }

    /// When loading older messages last started.
    pub open spec fn loading_since(&self) -> Option<Timestamp> {
        self.older_loading_updated_at
    }

    /// The keyed collections have distinct keys, and indicators expire after eight seconds.
    pub open spec fn wf(&self) -> bool {
        &&& self.messages.wf()
        &&& self.chat_preview_timestamps.wf()
        &&& self.typing_indicators.wf()
        &&& self.typing_indicators.expiry() == typing_expiry_seconds()
        &&& self.history_request_state.wf()
    }

    /// The messages of every chat.
    pub open spec fn timelines(&self) -> Seq<(String, Seq<ChatMessage>)> {
        timelines(self.messages)
    }

    /// The chat list and the preview times are unchanged.
    pub open spec fn same_chats(&self, other: &AppState) -> bool {
        &&& self.chats@ == other.chats@
        &&& self.previews() == other.previews()
    }

    /// The messages are unchanged.
    pub open spec fn same_messages(&self, other: &AppState) -> bool {
        self.messages@ == other.messages@
    }

    /// The selection, the input, the scroll and history-loading state are unchanged.
    pub open spec fn same_ui(&self, other: &AppState) -> bool {
        &&& self.selected_chat == other.selected_chat
        &&& self.input_value == other.input_value
        &&& self.is_scrolled_to_bottom == other.is_scrolled_to_bottom
        &&& self.ignore_scroll() == other.ignore_scroll()
        &&& self.loading_older_messages == other.loading_older_messages
        &&& self.loading_since() == other.loading_since()
        &&& self.requests() == other.requests()
    }

    /// The typing indicators are unchanged.
    pub open spec fn same_typing(&self, other: &AppState) -> bool {
        self.typing() == other.typing()
    }

    /// The sync progress is unchanged.
    pub open spec fn same_sync(&self, other: &AppState) -> bool {
        &&& self.sync_in_progress == other.sync_in_progress
        &&& self.sync_progress == other.sync_progress
        &&& self.sync_last_update() == other.sync_last_update()
    }

    /// The connection-related fields are unchanged.
    pub open spec fn same_connection(&self, other: &AppState) -> bool {
        &&& self.connection == other.connection
        &&& self.rpc_client == other.rpc_client
        &&& self.view == other.view
        &&& self.qr_code == other.qr_code
        &&& self.error == other.error
    }

    /// Everything but the connection-related fields is unchanged.
    pub open spec fn same_data(&self, other: &AppState) -> bool {
        &&& self.same_chats(other)
        &&& self.same_messages(other)
        &&& self.same_ui(other)
        &&& self.same_typing(other)
        &&& self.same_sync(other)
    }

    /// The initial state: disconnected, loading, nothing known yet, scrolled to the bottom.
    pub fn new() -> (r: Self)
        ensures
            r.wf(),
            r.connection is Disconnected,
            r.rpc_client is None,
            r.view == ViewState::Loading,
            r.qr_code is None,
            r.error is None,
            !r.sync_in_progress,
            r.sync_progress is None,
            r.sync_last_update() is None,
            r.chats@.len() == 0,
            r.selected_chat is None,
            r.timelines().len() == 0,
            r.previews().len() == 0,
            r.input_value@.len() == 0,
            r.typing().len() == 0,
            !r.ignore_scroll(),
            r.requests().len() == 0,
            !r.loading_older_messages,
            r.loading_since() is None,
            r.is_scrolled_to_bottom,
    {
        let r = AppState {
            connection: ConnectionState::Disconnected,
            rpc_client: None,
            view: ViewState::Loading,
            qr_code: None,
            error: None,
            sync_in_progress: false,
            sync_progress: None,
            sync_last_update: None,
            chats: Vec::new(),
            selected_chat: None,
            messages: StrMap::new(),
            chat_preview_timestamps: StrMap::new(),
            input_value: String::new(),
            typing_indicators: TypingManager::new(),
            ignore_next_scroll_event: false,
            history_request_state: StrMap::new(),
            loading_older_messages: false,
            older_loading_updated_at: None,
            is_scrolled_to_bottom: true,
        };
        assert(r.timelines() =~= Seq::empty());
        r
    }

    /// Selects a chat: the next scroll event is ignored, loading of older
    /// messages stops and the list is considered scrolled to the bottom.
    pub fn select_chat(&mut self, jid: Jid)
        ensures
            final(self).selected_chat == Some(jid),
            final(self).ignore_scroll(),
            !final(self).loading_older_messages,
            final(self).loading_since() is None,
            final(self).is_scrolled_to_bottom,
            final(self).input_value == old(self).input_value,
            final(self).requests() == old(self).requests(),
            final(self).same_chats(old(self)),
            final(self).same_messages(old(self)),
            final(self).same_typing(old(self)),
            final(self).same_sync(old(self)),
            final(self).same_connection(old(self)),
            final(self).wf() == old(self).wf(),
    {
        self.selected_chat = Some(jid);
        self.ignore_next_scroll_event = true;
        self.loading_older_messages = false;
        self.older_loading_updated_at = None;
        self.is_scrolled_to_bottom = true;
    }

    /// Tells whether the scroll event is to be ignored, and clears that.
    pub fn consume_scroll_ignore_flag(&mut self) -> (r: bool)
        ensures
            r == old(self).ignore_scroll(),
            !final(self).ignore_scroll(),
            final(self).selected_chat == old(self).selected_chat,
            final(self).input_value == old(self).input_value,
            final(self).is_scrolled_to_bottom == old(self).is_scrolled_to_bottom,
            final(self).loading_older_messages == old(self).loading_older_messages,
            final(self).loading_since() == old(self).loading_since(),
            final(self).requests() == old(self).requests(),
            final(self).same_chats(old(self)),
            final(self).same_messages(old(self)),
            final(self).same_typing(old(self)),
            final(self).same_sync(old(self)),
            final(self).same_connection(old(self)),
            final(self).wf() == old(self).wf(),
    {
        if self.ignore_next_scroll_event {
            self.ignore_next_scroll_event = false;
            true
        } else {
            false
        }
    }

    /// Records whether the message list is scrolled to the bottom, and gives it back.
    pub fn set_scrolled_to_bottom(&mut self, at_bottom: bool) -> (r: bool)
        ensures
            r == at_bottom,
            final(self).is_scrolled_to_bottom == at_bottom,
            final(self).selected_chat == old(self).selected_chat,
            final(self).input_value == old(self).input_value,
            final(self).ignore_scroll() == old(self).ignore_scroll(),
            final(self).loading_older_messages == old(self).loading_older_messages,
            final(self).loading_since() == old(self).loading_since(),
            final(self).requests() == old(self).requests(),
            final(self).same_chats(old(self)),
            final(self).same_messages(old(self)),
            final(self).same_typing(old(self)),
            final(self).same_sync(old(self)),
            final(self).same_connection(old(self)),
            final(self).wf() == old(self).wf(),
    {
        self.is_scrolled_to_bottom = at_bottom;
        self.is_scrolled_to_bottom
    }

    /// Whether new messages should scroll the list (it is at the bottom).
    pub fn should_auto_scroll(&self) -> (r: bool)
        ensures
            r == self.is_scrolled_to_bottom,
    {
        self.is_scrolled_to_bottom
    }

    /// The cursor for fetching history older than the selected chat's oldest
    /// message: the chat, the message id, whether it is ours, its time in ms.
    pub fn selected_chat_history_cursor(&self) -> (r: Option<(Jid, String, bool, i64)>)
        requires
            self.wf(),
        ensures
            r is Some <==> (self.selected_chat matches Some(j) && timeline_of(self.timelines(), j.0@) matches Some(l)
                && l.len() > 0),
            r matches Some(t) ==> ({
                let j = self.selected_chat->0;
                let l = timeline_of(self.timelines(), j.0@)->0;
                let m = l[oldest_pos(l)];
                t.0 == j && t.1 == m.id && t.2 == m.is_from_me && t.3 == clock::millis_of(m.timestamp as int)
            }),
    {
        let chat = match &self.selected_chat {
            Some(j) => j.clone(),
            None => return None,
        };
        proof {
            crate::keyed::lemma_map_vals(self.messages@, |v: Vec<ChatMessage>| v@, chat.0@);
        }
        let list = match self.messages.get(chat.0.as_str()) {
            Some(l) => l,
            None => return None,
        };
        if list.len() == 0 {
            return None;
        }
        let i = oldest_index(list);
        let m = &list[i];
        Some((chat, m.id.clone(), m.is_from_me, clock::millis(m.timestamp)))
    }

    /// Whether a history request for this cursor is allowed at `now`: not
    /// when the same cursor was requested for the chat less than three seconds before.
    pub open spec fn history_request_allowed(&self, chat: Seq<char>, oldest: Seq<char>, now: int) -> bool {
        match lookup(self.requests(), chat) {
            Some(v) => !(v.0@ == oldest && now - v.1 < history_dedup_nanos()),
            None => true,
        }
    }

    /// Starts a request for older history at `now` when allowed: records the
    /// cursor and marks older messages as loading. Tells whether it started.
    pub fn start_older_history_request_if_allowed_at(&mut self, chat_jid: &Jid, oldest_msg_id: &str, now: Timestamp) -> (r: bool)
        requires
            old(self).wf(),
        ensures
            final(self).wf(),
            r == old(self).history_request_allowed(chat_jid.0@, oldest_msg_id@, now as int),
            !r ==> final(self).requests() == old(self).requests() && final(self).loading_older_messages
                == old(self).loading_older_messages && final(self).loading_since() == old(self).loading_since(),
            r ==> (exists|id: String|
                id@ == oldest_msg_id@ && final(self).requests() == stored(old(self).requests(), chat_jid.0, (id, now))),
            r ==> final(self).loading_older_messages && final(self).loading_since() == Some(now),
            final(self).selected_chat == old(self).selected_chat,
            final(self).input_value == old(self).input_value,
            final(self).is_scrolled_to_bottom == old(self).is_scrolled_to_bottom,
            final(self).ignore_scroll() == old(self).ignore_scroll(),
            final(self).same_chats(old(self)),
            final(self).same_messages(old(self)),
            final(self).same_typing(old(self)),
            final(self).same_sync(old(self)),
            final(self).same_connection(old(self)),
    {
        match self.history_request_state.get(chat_jid.0.as_str()) {
            Some(entry) => {
                let is_same_cursor = crate::text::str_eq(entry.0.as_str(), oldest_msg_id);
                let is_recent = clock::elapsed_less_than(now, entry.1, 3_000_000_000);
                if is_same_cursor && is_recent {
                    return false;
                }
            },
            None => {},
        }
        let id = oldest_msg_id.to_string();
        let ghost gid = id;
        self.history_request_state.insert(chat_jid.0.clone(), (id, now));
        self.loading_older_messages = true;
        self.older_loading_updated_at = Some(now);
        assert(gid@ == oldest_msg_id@);
        true
    }

    /// Starts a request for older history now, when allowed.
    pub fn start_older_history_request_if_allowed(&mut self, chat_jid: &Jid, oldest_msg_id: &str) -> (r: bool)
        requires
            old(self).wf(),
        ensures
            final(self).wf(),
            exists|now: Timestamp|
                r == #[trigger] old(self).history_request_allowed(chat_jid.0@, oldest_msg_id@, now as int)
                    && (r ==> final(self).loading_since() == Some(now) && exists|id: String|
                    id@ == oldest_msg_id@ && final(self).requests() == stored(old(self).requests(), chat_jid.0, (id, now))),
            !r ==> final(self).requests() == old(self).requests() && final(self).loading_older_messages
                == old(self).loading_older_messages && final(self).loading_since() == old(self).loading_since(),
            r ==> final(self).loading_older_messages,
            final(self).selected_chat == old(self).selected_chat,
            final(self).input_value == old(self).input_value,
            final(self).is_scrolled_to_bottom == old(self).is_scrolled_to_bottom,
            final(self).ignore_scroll() == old(self).ignore_scroll(),
            final(self).same_chats(old(self)),
            final(self).same_messages(old(self)),
            final(self).same_typing(old(self)),
            final(self).same_sync(old(self)),
            final(self).same_connection(old(self)),
    {
        let now = clock::now();
        self.start_older_history_request_if_allowed_at(chat_jid, oldest_msg_id, now)
    }

    /// The selected chat, when the list has it.
    pub fn selected_chat(&self) -> (r: Option<&Chat>)
        ensures
            r is Some <==> (self.selected_chat matches Some(j) && has_model_chat(self.chats@, j.0@)),
            r matches Some(c) ==> ({
                let j = self.selected_chat->0;
                *c == self.chats@[model_chat_pos(self.chats@, j.0@)]
            }),
    {
        match &self.selected_chat {
            Some(jid) => match find_model_chat(&self.chats, jid) {
                Some(i) => Some(&self.chats[i]),
                None => None,
            },
            None => None,
        }
    }

    /// The messages of the selected chat (none when no chat is selected or it has none).
    pub fn selected_messages(&self) -> (r: &[ChatMessage])
        requires
            self.wf(),
        ensures
            r@ == (match self.selected_chat {
                Some(j) => match timeline_of(self.timelines(), j.0@) {
                    Some(l) => l,
                    None => Seq::empty(),
                },
                None => Seq::empty(),
            }),
    {
        match &self.selected_chat {
            Some(jid) => {
                proof {
                    crate::keyed::lemma_map_vals(self.messages@, |v: Vec<ChatMessage>| v@, jid.0@);
                }
                match self.messages.get(jid.0.as_str()) {
                    Some(l) => l.as_slice(),
                    None => &[],
                }
            },
            None => &[],
        }
    }

    /// Sets the text of the message input.
    pub fn set_input(&mut self, value: String)
        ensures
            final(self).input_value == value,
            final(self).selected_chat == old(self).selected_chat,
            final(self).is_scrolled_to_bottom == old(self).is_scrolled_to_bottom,
            final(self).ignore_scroll() == old(self).ignore_scroll(),
            final(self).loading_older_messages == old(self).loading_older_messages,
            final(self).loading_since() == old(self).loading_since(),
            final(self).requests() == old(self).requests(),
            final(self).same_chats(old(self)),
            final(self).same_messages(old(self)),
            final(self).same_typing(old(self)),
            final(self).same_sync(old(self)),
            final(self).same_connection(old(self)),
            final(self).wf() == old(self).wf(),
    {
        self.input_value = value;
    }

    /// Takes the typed text and the selected chat, when there is text and a
    /// selected chat; the input is then empty.
    pub fn take_message_to_send(&mut self) -> (r: Option<(Jid, String)>)
        ensures
            r is Some <==> (old(self).input_value@.len() > 0 && old(self).selected_chat is Some),
            r matches Some(p) ==> p.0 == old(self).selected_chat->0 && p.1 == old(self).input_value
                && final(self).input_value@.len() == 0,
            r is None ==> final(self).input_value == old(self).input_value,
            final(self).selected_chat == old(self).selected_chat,
            final(self).is_scrolled_to_bottom == old(self).is_scrolled_to_bottom,
            final(self).ignore_scroll() == old(self).ignore_scroll(),
            final(self).loading_older_messages == old(self).loading_older_messages,
            final(self).loading_since() == old(self).loading_since(),
            final(self).requests() == old(self).requests(),
            final(self).same_chats(old(self)),
            final(self).same_messages(old(self)),
            final(self).same_typing(old(self)),
            final(self).same_sync(old(self)),
            final(self).same_connection(old(self)),
            final(self).wf() == old(self).wf(),
    {
        if self.input_value.as_str().is_empty() {
            return None;
        }
        let jid = match &self.selected_chat {
            Some(j) => j.clone(),
            None => return None,
        };
        let mut text = String::new();
        std::mem::swap(&mut text, &mut self.input_value);
        Some((jid, text))
    }

    /// Keeps the client handle for sending requests.
    pub fn set_rpc_client(&mut self, client: RpcClientHandle)
        ensures
            final(self).rpc_client == Some(client),
            final(self).connection == old(self).connection,
            final(self).view == old(self).view,
            final(self).qr_code == old(self).qr_code,
            final(self).error == old(self).error,
            final(self).same_data(old(self)),
            final(self).wf() == old(self).wf(),
    {
        self.rpc_client = Some(client);
    }

    /// Drops the client handle.
    pub fn clear_rpc_client(&mut self)
        ensures
            final(self).rpc_client is None,
            final(self).connection == old(self).connection,
            final(self).view == old(self).view,
            final(self).qr_code == old(self).qr_code,
            final(self).error == old(self).error,
            final(self).same_data(old(self)),
            final(self).wf() == old(self).wf(),
    {
        self.rpc_client = None;
    }

    /// Shows an error.
    pub fn set_error(&mut self, error: String)
        ensures
            final(self).error == Some(error),
            final(self).connection == old(self).connection,
            final(self).rpc_client == old(self).rpc_client,
            final(self).view == old(self).view,
            final(self).qr_code == old(self).qr_code,
            final(self).same_data(old(self)),
            final(self).wf() == old(self).wf(),
    {
        self.error = Some(error);
    }

    /// Whether the chats can be shown in the current connection state.
    fn can_show_chats_view(&self) -> (r: bool)
        ensures
            r == can_show_chats(self.connection),
    {
        match &self.connection {
            ConnectionState::WaitingForQr { .. } => false,
            ConnectionState::WaitingForPairCode { .. } => false,
            ConnectionState::LoggedOut => false,
            _ => true,
        }
    }

    /// Records a new connection state and switches the view: connected shows
    /// the chats and clears the QR code and the error; a QR code or pair
    /// code shows the pairing screen; logging out shows the pairing screen
    /// without a QR code; disconnecting shows the loading screen; other
    /// states keep the view.
    pub fn set_connection_state(&mut self, state: ConnectionState)
        ensures
            final(self).connection == state,
            final(self).rpc_client == old(self).rpc_client,
            final(self).same_data(old(self)),
            final(self).wf() == old(self).wf(),
            connection_shown(
                state,
                (old(self).view, old(self).qr_code, old(self).error),
                (final(self).view, final(self).qr_code, final(self).error),
            ),
    {
        match &state {
            ConnectionState::Connected => {
                self.view = ViewState::Chats;
                self.qr_code = None;
                self.error = None;
            },
            ConnectionState::WaitingForQr { qr_code } => {
                self.view = ViewState::Pairing;
                self.qr_code = Some(qr_code.clone());
            },
            ConnectionState::WaitingForPairCode { .. } => {
                self.view = ViewState::Pairing;
            },
            ConnectionState::LoggedOut => {
                self.view = ViewState::Pairing;
                self.qr_code = None;
            },
            ConnectionState::Disconnected => {
                self.view = ViewState::Loading;
            },
            _ => {},
        }
        self.connection = state;
    }

    /// Records sync progress reported at `now`; the total is at least the count.
    pub fn set_sync_progress_at(&mut self, current: u32, total: u32, now: Timestamp)
        ensures
            final(self).sync_in_progress,
            final(self).sync_progress == Some((current, if total >= current { total } else { current })),
            final(self).sync_last_update() == Some(now),
            final(self).same_chats(old(self)),
            final(self).same_messages(old(self)),
            final(self).same_ui(old(self)),
            final(self).same_typing(old(self)),
            final(self).same_connection(old(self)),
            final(self).wf() == old(self).wf(),
    {
        self.sync_in_progress = true;
        self.sync_progress = Some((current, if total >= current { total } else { current }));
        self.sync_last_update = Some(now);
    }

    /// Records sync progress reported now.
    pub fn set_sync_progress(&mut self, current: u32, total: u32)
        ensures
            final(self).sync_in_progress,
            final(self).sync_progress == Some((current, if total >= current { total } else { current })),
            final(self).sync_last_update() is Some,
            final(self).same_chats(old(self)),
            final(self).same_messages(old(self)),
            final(self).same_ui(old(self)),
            final(self).same_typing(old(self)),
            final(self).same_connection(old(self)),
            final(self).wf() == old(self).wf(),
    {
        self.set_sync_progress_at(current, total, clock::now());
    }

    /// Ends the sync.
    pub fn finish_sync(&mut self)
        ensures
            !final(self).sync_in_progress,
            final(self).sync_progress is None,
            final(self).sync_last_update() is None,
            final(self).same_chats(old(self)),
            final(self).same_messages(old(self)),
            final(self).same_ui(old(self)),
            final(self).same_typing(old(self)),
            final(self).same_connection(old(self)),
            final(self).wf() == old(self).wf(),
    {
        self.sync_in_progress = false;
        self.sync_progress = None;
        self.sync_last_update = None;
    }

    /// The chat list, preview times and view of `new` are those of `old`
    /// after showing `preview` at `ts` as the last message of chat `jid`.
    pub open spec fn preview_applied(old: &AppState, new: &AppState, jid: Jid, preview: String, ts: Timestamp) -> bool {
        let shown = lookup(old.previews(), jid.0@);
        if shown matches Some(t) && ts < t {
            new.same_chats(old) && new.view == old.view
        } else {
            &&& new.previews() == stored(old.previews(), jid.0, ts)
            &&& has_model_chat(old.chats@, jid.0@) ==> ({
                let p = model_chat_pos(old.chats@, jid.0@);
                let c = old.chats@[p];
                new.chats@ == old.chats@.update(p, Chat { last_message: preview, last_activity: Some(ts), ..c })
            })
            &&& !has_model_chat(old.chats@, jid.0@) ==> exists|label: String|
                label@ == jid_normalized_user(jid.0@) && new.chats@ == old.chats@.push(
                    Chat {
                        jid,
                        name: label,
                        last_message: preview,
                        last_activity: Some(ts),
                        unread_count: 0,
                        is_pinned: false,
                    },
                )
            &&& new.view == view_after_chat_update(old.view, old.connection)
        }
    }

    /// Shows `preview` as the last message of the chat unless a newer one is
    /// shown; an unknown chat is added under its JID's label. The chats are
    /// then shown when they can be.
    fn update_chat_preview(&mut self, chat_jid: &Jid, preview: String, timestamp: Timestamp)
        requires
            old(self).wf(),
        ensures
            final(self).wf(),
            Self::preview_applied(old(self), final(self), *chat_jid, preview, timestamp),
            final(self).same_messages(old(self)),
            final(self).same_ui(old(self)),
            final(self).same_typing(old(self)),
            final(self).same_sync(old(self)),
            final(self).connection == old(self).connection,
            final(self).rpc_client == old(self).rpc_client,
            final(self).qr_code == old(self).qr_code,
            final(self).error == old(self).error,
    {
        match self.chat_preview_timestamps.get(chat_jid.0.as_str()) {
            Some(last) => {
                if timestamp < *last {
                    return;
                }
            },
            None => {},
        }
        self.chat_preview_timestamps.insert(chat_jid.0.clone(), timestamp);
        match find_model_chat(&self.chats, chat_jid) {
            Some(i) => {
                let ghost c = self.chats@[i as int];
                self.chats[i].last_message = preview;
                self.chats[i].last_activity = Some(timestamp);
                assert(self.chats@ == old(self).chats@.update(
                    i as int,
                    Chat { last_message: preview, last_activity: Some(timestamp), ..c },
                ));
            },
            None => {
                let label = chat_jid.display_label();
                let ghost glabel = label;
                self.chats.push(
                    Chat {
                        jid: chat_jid.clone(),
                        name: label,
                        last_message: preview,
                        last_activity: Some(timestamp),
                        unread_count: 0,
                        is_pinned: false,
                    },
                );
                assert(glabel@ == jid_normalized_user(chat_jid.0@));
                assert(self.chats@ == old(self).chats@.push(
                    Chat {
                        jid: *chat_jid,
                        name: glabel,
                        last_message: preview,
                        last_activity: Some(timestamp),
                        unread_count: 0,
                        is_pinned: false,
                    },
                ));
            },
        }
        if self.can_show_chats_view() {
            self.view = ViewState::Chats;
        }
    }

    /// Adds an outgoing message created at `now` to the end of the chat's
    /// list under a local `pending_` id, shows it as the chat's preview, and
    /// gives the id.
    pub fn add_pending_message_at(&mut self, chat_jid: &Jid, content: String, now: Timestamp) -> (r: String)
        requires
            old(self).wf(),
        ensures
            final(self).wf(),
            r@ == pending_id(now as int),
            exists|msg: ChatMessage|
                msg.id == r && msg.is_from_me && msg.content == content && msg.timestamp == now && msg.status
                    == MessageStatus::Pending && final(self).timelines() == #[trigger] appended(
                    old(self).timelines(),
                    chat_jid.0,
                    msg,
                ),
            Self::preview_applied(old(self), final(self), *chat_jid, content, now),
            final(self).same_ui(old(self)),
            final(self).same_typing(old(self)),
            final(self).same_sync(old(self)),
            final(self).connection == old(self).connection,
            final(self).rpc_client == old(self).rpc_client,
            final(self).qr_code == old(self).qr_code,
            final(self).error == old(self).error,
    {
        let local_id = pending_id_at(now);
        let msg = ChatMessage::new_outgoing_with_id_at(local_id.clone(), content.clone(), now);
        let ghost gmsg = msg;
        append_to_timeline(&mut self.messages, chat_jid.0.clone(), msg);
        self.update_chat_preview(chat_jid, content, now);
        assert(final(self).timelines() == appended(old(self).timelines(), chat_jid.0, gmsg));
        local_id
    }

    /// Adds an outgoing message created now; gives its local id.
    pub fn add_pending_message(&mut self, chat_jid: &Jid, content: String) -> (r: String)
        requires
            old(self).wf(),
        ensures
            final(self).wf(),
            exists|now: Timestamp, msg: ChatMessage|
                #![trigger appended(old(self).timelines(), chat_jid.0, msg), pending_id(now as int)]
                r@ == pending_id(now as int) && msg.id == r && msg.is_from_me && msg.content == content
                    && msg.timestamp == now && msg.status == MessageStatus::Pending && final(self).timelines()
                    == appended(old(self).timelines(), chat_jid.0, msg) && Self::preview_applied(
                    old(self),
                    final(self),
                    *chat_jid,
                    content,
                    now,
                ),
            final(self).same_ui(old(self)),
            final(self).same_typing(old(self)),
            final(self).same_sync(old(self)),
            final(self).connection == old(self).connection,
            final(self).rpc_client == old(self).rpc_client,
            final(self).qr_code == old(self).qr_code,
            final(self).error == old(self).error,
    {
        let now = clock::now();
        self.add_pending_message_at(chat_jid, content, now)
    }

    /// Whether adding `msg` stops the loading of older messages: it is added
    /// to the selected chat.
    pub open spec fn clears_loading(s: &AppState, msg: rpc::ChatMessage) -> bool {
        adds_id(s.timelines(), msg.chat.0@, msg.id@) && (s.selected_chat matches Some(j) && j.0@ == msg.chat.0@)
    }

    /// Adds a message reported by the service to its chat in time order,
    /// unless the chat already has its id. An added message becomes the
    /// chat's preview, and when its chat is selected, loading of older
    /// messages stops.
    pub fn add_rpc_message(&mut self, msg: rpc::ChatMessage)
        requires
            old(self).wf(),
        ensures
            final(self).wf(),
            exists|cm: ChatMessage|
                message_from_rpc(msg, cm) && #[trigger] after_add(old(self).timelines(), msg.chat.0, cm, final(self).timelines())
                    && (adds_id(old(self).timelines(), msg.chat.0@, msg.id@) ==> Self::preview_applied(
                    old(self),
                    final(self),
                    msg.chat,
                    cm.content,
                    cm.timestamp,
                )),
            !adds_id(old(self).timelines(), msg.chat.0@, msg.id@) ==> final(self).same_chats(old(self))
                && final(self).view == old(self).view,
            Self::clears_loading(old(self), msg) ==> !final(self).loading_older_messages
                && final(self).loading_since() is None,
            !Self::clears_loading(old(self), msg) ==> final(self).loading_older_messages
                == old(self).loading_older_messages && final(self).loading_since() == old(self).loading_since(),
            final(self).selected_chat == old(self).selected_chat,
            final(self).input_value == old(self).input_value,
            final(self).is_scrolled_to_bottom == old(self).is_scrolled_to_bottom,
            final(self).ignore_scroll() == old(self).ignore_scroll(),
            final(self).requests() == old(self).requests(),
            final(self).same_typing(old(self)),
            final(self).same_sync(old(self)),
            final(self).connection == old(self).connection,
            final(self).rpc_client == old(self).rpc_client,
            final(self).qr_code == old(self).qr_code,
            final(self).error == old(self).error,
    {
        let ghost key = msg.chat;
        let ghost gmsg = msg;
        let chat_jid = msg.chat.0.clone();
        let chat_msg = ChatMessage::from_rpc(msg);
        if !add_to_timeline(&mut self.messages, chat_jid.clone(), chat_msg.clone()) {
            assert(!adds(old(self).timelines(), key.0@, chat_msg));
            assert(after_add(old(self).timelines(), key.0, chat_msg, self.timelines()));
            assert(message_from_rpc(gmsg, chat_msg));
            return;
        }
        let ghost after_messages = self.timelines();
        assert(after_add(old(self).timelines(), key.0, chat_msg, after_messages));
        let jid = Jid(chat_jid.clone());
        assert(jid == key);
        let ghost mid = *self;
        self.update_chat_preview(&jid, chat_msg.content.clone(), chat_msg.timestamp);
        let ghost post = *self;
        assert(Self::preview_applied(&mid, &post, key, chat_msg.content, chat_msg.timestamp));
        assert(mid.chats == old(self).chats && mid.previews() == old(self).previews() && mid.view == old(self).view
            && mid.connection == old(self).connection);
        assert(Self::preview_applied(old(self), &post, key, chat_msg.content, chat_msg.timestamp));
        let is_selected = match &self.selected_chat {
            Some(selected) => selected.0 == chat_jid,
            None => false,
        };
        if is_selected {
            self.loading_older_messages = false;
            self.older_loading_updated_at = None;
        }
        assert(message_from_rpc(gmsg, chat_msg));
        assert(self.timelines() == after_messages);
        assert(Self::preview_applied(old(self), &*self, key, chat_msg.content, chat_msg.timestamp));
    }

    /// Sets the status of the first message with the id, looking through the chats in order.
    pub fn update_message_status(&mut self, message_id: &str, status: MessageStatus)
        requires
            old(self).wf(),
        ensures
            final(self).wf(),
            status_set_first(old(self).timelines(), final(self).timelines(), message_id@, status),
            final(self).same_chats(old(self)),
            final(self).same_ui(old(self)),
            final(self).same_typing(old(self)),
            final(self).same_sync(old(self)),
            final(self).same_connection(old(self)),
    {
        let _ = set_status_anywhere(&mut self.messages, message_id, status);
    }

    /// Sets the status of the first message with the id in one chat.
    pub fn update_specific_message_status(&mut self, chat_jid: &Jid, message_id: &str, status: MessageStatus)
        requires
            old(self).wf(),
        ensures
            final(self).wf(),
            status_set_in_chat(old(self).timelines(), final(self).timelines(), chat_jid.0@, message_id@, status),
            final(self).same_chats(old(self)),
            final(self).same_ui(old(self)),
            final(self).same_typing(old(self)),
            final(self).same_sync(old(self)),
            final(self).same_connection(old(self)),
    {
        let _ = set_status_in_chat(&mut self.messages, chat_jid.0.as_str(), message_id, status);
    }

    /// Gives the pending message `local_id` of the chat its server id and marks it sent.
    pub fn resolve_pending_message_id(&mut self, chat_jid: &Jid, local_id: &str, server_id: &str)
        requires
            old(self).wf(),
        ensures
            final(self).wf(),
            pending_resolved(old(self).timelines(), final(self).timelines(), chat_jid.0@, local_id@, server_id@),
            final(self).same_chats(old(self)),
            final(self).same_ui(old(self)),
            final(self).same_typing(old(self)),
            final(self).same_sync(old(self)),
            final(self).same_connection(old(self)),
    {
        let _ = resolve_in_chat(&mut self.messages, chat_jid.0.as_str(), local_id, server_id);
    }

    /// Replaces the chat list with the service's chats; a non-empty list is
    /// shown when the chats can be shown.
    pub fn set_chats_from_rpc(&mut self, chats: Vec<rpc::Chat>)
        ensures
            chats_from_rpc(chats@, final(self).chats@),
            final(self).view == (if chats@.len() > 0 && can_show_chats(old(self).connection) {
                ViewState::Chats
            } else {
                old(self).view
            }),
            final(self).previews() == old(self).previews(),
            final(self).same_messages(old(self)),
            final(self).same_ui(old(self)),
            final(self).same_typing(old(self)),
            final(self).same_sync(old(self)),
            final(self).connection == old(self).connection,
            final(self).rpc_client == old(self).rpc_client,
            final(self).qr_code == old(self).qr_code,
            final(self).error == old(self).error,
            final(self).wf() == old(self).wf(),
    {
        let ghost src = chats@;
        let mut converted: Vec<Chat> = Vec::new();
        let mut rest = chats;
        while rest.len() > 0
            invariant
                converted@.len() <= src.len(),
                rest@ == src.skip(converted@.len() as int),
                forall|i: int| 0 <= i < converted@.len() ==> chat_from_rpc(src[i], #[trigger] converted@[i]),
            decreases rest@.len(),
        {
            let ghost k = converted@.len() as int;
            let c = rest.remove(0);
            assert(c == src[k]);
            converted.push(Chat::from_rpc(c));
            assert(rest@ =~= src.skip(converted@.len() as int));
        }
        let nonempty = converted.len() > 0;
        self.chats = converted;
        if nonempty && self.can_show_chats_view() {
            self.view = ViewState::Chats;
        }
    }

    /// Replaces the first chat with the chat's JID, or appends it; the chats
    /// are then shown when they can be.
    pub fn update_chat_from_rpc(&mut self, chat: rpc::Chat)
        ensures
            chat_updated_from_rpc(old(self).chats@, final(self).chats@, chat),
            final(self).view == view_after_chat_update(old(self).view, old(self).connection),
            final(self).previews() == old(self).previews(),
            final(self).same_messages(old(self)),
            final(self).same_ui(old(self)),
            final(self).same_typing(old(self)),
            final(self).same_sync(old(self)),
            final(self).connection == old(self).connection,
            final(self).rpc_client == old(self).rpc_client,
            final(self).qr_code == old(self).qr_code,
            final(self).error == old(self).error,
            final(self).wf() == old(self).wf(),
    {
        let ghost gchat = chat;
        let m = Chat::from_rpc(chat);
        let ghost gm = m;
        match find_model_chat(&self.chats, &m.jid) {
            Some(i) => {
                self.chats.set(i, m);
            },
            None => {
                self.chats.push(m);
            },
        }
        if self.can_show_chats_view() {
            self.view = ViewState::Chats;
        }
        assert(chat_from_rpc(gchat, gm));
    }

    /// Renames, to the trimmed name, every chat with the same JID or the same
    /// normalized user whose name differs. A name that is empty once trimmed
    /// changes nothing.
    pub fn update_contact_name(&mut self, jid: &Jid, name: &str)
        ensures
            contact_renamed(old(self).chats@, final(self).chats@, jid.0@, name@),
            final(self).previews() == old(self).previews(),
            final(self).same_messages(old(self)),
            final(self).same_ui(old(self)),
            final(self).same_typing(old(self)),
            final(self).same_sync(old(self)),
            final(self).same_connection(old(self)),
            final(self).wf() == old(self).wf(),
    {
        let t = trim(name);
        let tv = chars_of(t);
        if tv.len() == 0 {
            return;
        }
        let normalized = jid.normalized_user();
        let ghost orig = self.chats@;
        let mut i: usize = 0;
        while i < self.chats.len()
            invariant
                self.chats@.len() == orig.len(),
                orig == old(self).chats@,
                t@ == trimmed(name@),
                normalized@ == jid_normalized_user(jid.0@),
                0 <= i <= orig.len(),
                self.previews() == old(self).previews(),
                self.same_messages(old(self)),
                self.same_ui(old(self)),
                self.same_typing(old(self)),
                self.same_sync(old(self)),
                self.same_connection(old(self)),
                self.wf() == old(self).wf(),
                forall|j: int| i <= j < orig.len() ==> #[trigger] self.chats@[j] == orig[j],
                forall|j: int|
                    0 <= j < i ==> (if model_rename_applies(#[trigger] orig[j], jid.0@, t@) {
                        self.chats@[j] == Chat { name: self.chats@[j].name, ..orig[j] } && self.chats@[j].name@ == t@
                    } else {
                        self.chats@[j] == orig[j]
                    }),
            decreases orig.len() - i,
        {
            let same_jid = self.chats[i].jid == *jid;
            let other = self.chats[i].jid.normalized_user();
            let same_user = other == normalized;
            let differs = !crate::text::str_eq(self.chats[i].name.as_str(), t);
            if (same_jid || same_user) && differs {
                self.chats[i].name = t.to_string();
            }
            i = i + 1;
        }
    }

    /// Records that `sender_jid` is in `state` in `chat_jid`, reported at `now`.
    pub fn set_typing_at(&mut self, chat_jid: Jid, sender_jid: Jid, state: TypingState, now: Timestamp)
        requires
            old(self).wf(),
        ensures
            final(self).wf(),
            final(self).typing() == TypingManager::after_set(
                old(self).typing(),
                chat_jid.0,
                sender_jid.0,
                to_indicator(state),
                now,
            ),
            final(self).same_chats(old(self)),
            final(self).same_messages(old(self)),
            final(self).same_ui(old(self)),
            final(self).same_sync(old(self)),
            final(self).same_connection(old(self)),
    {
        let s = match state {
            TypingState::Idle => typing_manager::TypingState::Idle,
            TypingState::Typing => typing_manager::TypingState::Typing,
            TypingState::Recording => typing_manager::TypingState::Recording,
        };
        self.typing_indicators.set_typing_at(&chat_jid, &sender_jid, s, now);
    }

    /// Records that `sender_jid` is in `state` in `chat_jid`, reported now.
    pub fn set_typing(&mut self, chat_jid: Jid, sender_jid: Jid, state: TypingState)
        requires
            old(self).wf(),
        ensures
            final(self).wf(),
            exists|now: Timestamp|
                final(self).typing() == #[trigger] TypingManager::after_set(
                    old(self).typing(),
                    chat_jid.0,
                    sender_jid.0,
                    to_indicator(state),
                    now,
                ),
            final(self).same_chats(old(self)),
            final(self).same_messages(old(self)),
            final(self).same_ui(old(self)),
            final(self).same_sync(old(self)),
            final(self).same_connection(old(self)),
    {
        let now = clock::now();
        self.set_typing_at(chat_jid, sender_jid, state, now);
    }

    /// The state of the first sender of the selected chat that is not idle.
    pub fn selected_typing_state(&self) -> (r: Option<TypingState>)
        requires
            self.wf(),
        ensures
            r == (match self.selected_chat {
                Some(j) => match lookup(self.typing(), j.0@) {
                    Some(e) => if active_senders(e).len() > 0 {
                        Some(from_indicator(active_senders(e)[0].1))
                    } else {
                        None
                    },
                    None => None,
                },
                None => None,
            }),
    {
        match &self.selected_chat {
            Some(jid) => {
                let users = self.typing_indicators.get_typing_users(jid);
                if users.len() > 0 {
                    let st = match users[0].1 {
                        typing_manager::TypingState::Idle => TypingState::Idle,
                        typing_manager::TypingState::Typing => TypingState::Typing,
                        typing_manager::TypingState::Recording => TypingState::Recording,
                    };
                    Some(st)
                } else {
                    None
                }
            },
            None => None,
        }
    }

    /// Cleans up at `now`: drops typing indicators that are idle or older than
    /// eight seconds (and chats left without), ends a sync without progress
    /// for more than eight seconds, and stops loading older messages after
    /// more than six seconds.
    pub fn cleanup_temporary_state_at(&mut self, now: Timestamp)
        requires
            old(self).wf(),
        ensures
            final(self).wf(),
            Self::cleaned_up(*old(self), *final(self), now),
    {
        self.typing_indicators.cleanup_at(now);
        if self.sync_in_progress {
            match self.sync_last_update {
                Some(last) => {
                    if clock::elapsed_more_than(now, last, 8_000_000_000) {
                        self.finish_sync();
                    }
                },
                None => {},
            }
        }
        if self.loading_older_messages {
            match self.older_loading_updated_at {
                Some(last) => {
                    if clock::elapsed_more_than(now, last, 6_000_000_000) {
                        self.loading_older_messages = false;
                        self.older_loading_updated_at = None;
                    }
                },
                None => {},
            }
        }
    }

    /// `new` is `old` cleaned up at `now`: typing indicators older than eight
    /// seconds, or idle, are dropped; a sync with no progress for more than
    /// eight seconds ends; loading of older messages that started more than
    /// six seconds before stops; everything else stays.
    pub open spec fn cleaned_up(old: AppState, new: AppState, now: Timestamp) -> bool {
        &&& new.typing() == cleaned(old.typing(), now as int, 8_000_000_000)
        &&& if stale_since(old.sync_in_progress, old.sync_last_update(), now as int, sync_stale_nanos()) {
            !new.sync_in_progress && new.sync_progress is None && new.sync_last_update() is None
        } else {
            new.same_sync(&old)
        }
        &&& if stale_since(old.loading_older_messages, old.loading_since(), now as int, loading_stale_nanos()) {
            !new.loading_older_messages && new.loading_since() is None
        } else {
            new.loading_older_messages == old.loading_older_messages && new.loading_since() == old.loading_since()
        }
        &&& new.selected_chat == old.selected_chat
        &&& new.input_value == old.input_value
        &&& new.is_scrolled_to_bottom == old.is_scrolled_to_bottom
        &&& new.ignore_scroll() == old.ignore_scroll()
        &&& new.requests() == old.requests()
        &&& new.same_chats(&old)
        &&& new.same_messages(&old)
        &&& new.same_connection(&old)
    }

    /// Cleans up as of now.
    pub fn cleanup_temporary_state(&mut self)
        requires
            old(self).wf(),
        ensures
            final(self).wf(),
            exists|now: Timestamp| #[trigger] Self::cleaned_up(*old(self), *final(self), now),
    {
        let now = clock::now();
        self.cleanup_temporary_state_at(now);
    }
}

impl Default for AppState {
    /// The initial state, as `AppState::new` gives it.
    fn default() -> (r: Self)
        ensures
            r.wf(),
            r.connection is Disconnected,
            r.rpc_client is None,
            r.view == ViewState::Loading,
            r.chats@.len() == 0,
            r.selected_chat is None,
            r.timelines().len() == 0,
            r.input_value@.len() == 0,
            r.is_scrolled_to_bottom,
    {
        AppState::new()
    }
}

} // verus!
