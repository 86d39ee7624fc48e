//! What the service does with each event of the WhatsApp client: which
//! events it emits towards the user interface and which records it asks the
//! local store to keep.
//!
//! The client's events reach this module as `ServiceEvent`, which holds as
//! plain values what the decisions read; the effects come back as a list
//! that the caller carries out in order.

use vstd::prelude::*;
use crate::clock::{self, chrono_accepts_seconds, millis_of, Timestamp};
use crate::rpc::service::content::{content_of, non_blank, parse_message_content, same_content, MessageFields};
use crate::rpc::types::{group_marker, jid_normalized_user};
use crate::text::contains_seq;
use crate::text::{concat, decimal_string, decimal_text, string_from, trim};
use crate::whatsapp::client::Connection;
use crate::whatsapp::events::WhatsAppEvent;
use crate::whatsapp::storage::models::{StorageCommand, StoredMessage};
use crate::whatsapp::types::{Chat, ChatMessage, ConnectionState, Jid, MessageStatus, Presence, TypingState};

verus! {

/// The kind of a delivery receipt.
#[derive(Debug, Clone, Copy, PartialEq, Eq, Structural)]
pub enum ReceiptKind {
    Read,
    ReadSelf,
    Delivered,
    Other,
}

/// A message that arrived live.
#[derive(Debug)]
pub struct IncomingMessage {
    pub id: String,
    pub sender: String,
    pub chat: String,
    pub is_from_me: bool,
    pub timestamp: Timestamp,
    pub push_name: String,
    pub content: MessageFields,
    pub raw_message: Vec<u8>,
}

/// A message of a synced conversation.
#[derive(Debug)]
pub struct HistoryItem {
    pub id: Option<String>,
    pub remote_jid: Option<String>,
    pub participant: Option<String>,
    pub from_me: Option<bool>,
    pub message_timestamp: Option<u64>,
    pub content: MessageFields,
    pub raw_message: Vec<u8>,
}

/// A conversation that was joined or synced.
#[derive(Debug)]
pub struct JoinedConversation {
    pub id: String,
    pub display_name: Option<String>,
    pub name: Option<String>,
    pub username: Option<String>,
    pub pn_jid: Option<String>,
    pub conversation_timestamp: Option<u64>,
    pub last_msg_timestamp: Option<u64>,
    pub unread_count: Option<u32>,
    pub mute_end_time: Option<u64>,
    pub pinned: Option<u32>,
    pub raw_conversation: Vec<u8>,
    /// The messages of the conversation, when they came with it; an entry
    /// is `None` for a history record without a message.
    pub messages: Option<Vec<Option<HistoryItem>>>,
}

/// An event of the WhatsApp client, as far as the service reads it.
#[derive(Debug)]
pub enum ServiceEvent {
    PairingQrCode { code: String },
    PairingCode { code: String },
    Connected,
    Disconnected,
    LoggedOut,
    Message(IncomingMessage),
    Receipt { kind: ReceiptKind, chat: String, message_ids: Vec<String> },
    ChatPresence { chat: String, sender: String, composing: bool, audio: bool },
    Presence { from: String, unavailable: bool, last_seen: Option<Timestamp> },
    OfflineSyncPreview { total: i32 },
    OfflineSyncCompleted,
    /// A joined conversation, when its data could be read.
    JoinedGroup(Option<JoinedConversation>),
    ContactUpdate {
        jid: String,
        full_name: Option<String>,
        first_name: Option<String>,
        pn_jid: Option<String>,
        lid_jid: Option<String>,
    },
    PushNameUpdate { jid: String, new_push_name: String },
    Other,
}

/// What the service does: emit an event to the user interface, or ask the
/// store to keep a record.
pub enum ServiceEffect {
    Emit(WhatsAppEvent),
    Persist(StorageCommand),
}

/// How far the history sync has come: conversations synced so far, and the
/// number announced, if any.
#[derive(Debug, Clone, Copy)]
pub struct SyncCounters {
    pub current: u32,
    pub total_hint: Option<u32>,
}

/// Equal chats, where the names are compared by their characters.
pub open spec fn same_chat(a: Chat, b: Chat) -> bool {
    &&& a.jid == b.jid
    &&& a.name@ == b.name@
    &&& a.last_message == b.last_message
    &&& a.last_activity == b.last_activity
    &&& a.is_group == b.is_group
    &&& a.unread_count == b.unread_count
    &&& a.is_muted == b.is_muted
    &&& a.is_pinned == b.is_pinned
}

/// Equal messages without quotes, where the ids are compared by their
/// characters and the contents by `same_content`.
pub open spec fn same_message(a: ChatMessage, b: ChatMessage) -> bool {
    &&& a.id@ == b.id@
    &&& a.sender == b.sender
    &&& a.chat == b.chat
    &&& same_content(a.content, b.content)
    &&& a.timestamp == b.timestamp
    &&& a.is_from_me == b.is_from_me
    &&& a.status == b.status
    &&& a.quoted_message is None
    &&& b.quoted_message is None
}

/// Equal stored messages, where the ids are compared by their characters.
pub open spec fn same_stored(a: StoredMessage, b: StoredMessage) -> bool {
    &&& a.message_id@ == b.message_id@
    &&& a.sender_jid == b.sender_jid
    &&& a.chat_jid == b.chat_jid
    &&& a.is_from_me == b.is_from_me
    &&& a.timestamp_ms == b.timestamp_ms
    &&& a.status == b.status
    &&& a.raw_message == b.raw_message
}

/// Two events that say the same: connection events carry a handle on the
/// same channel, which is not compared.
pub open spec fn same_event(x: WhatsAppEvent, y: WhatsAppEvent) -> bool {
    match x {
        WhatsAppEvent::Connected(_) => y is Connected,
        WhatsAppEvent::MessageReceived(m1) => match y {
            WhatsAppEvent::MessageReceived(m2) => same_message(m1, m2),
            _ => false,
        },
        WhatsAppEvent::ChatUpdated(c1) => match y {
            WhatsAppEvent::ChatUpdated(c2) => same_chat(c1, c2),
            _ => false,
        },
        _ => x == y,
    }
}

/// Two store commands that say the same.
pub open spec fn same_command(x: StorageCommand, y: StorageCommand) -> bool {
    match x {
        StorageCommand::UpsertChat { chat: c1, raw_conversation: r1 } => match y {
            StorageCommand::UpsertChat { chat: c2, raw_conversation: r2 } => same_chat(c1, c2) && r1 == r2,
            _ => false,
        },
        StorageCommand::UpsertMessage(m1) => match y {
            StorageCommand::UpsertMessage(m2) => same_stored(m1, m2),
            _ => false,
        },
        _ => x == y,
    }
}

/// Two effects that do the same.
pub open spec fn same_effect(a: ServiceEffect, b: ServiceEffect) -> bool {
    match a {
        ServiceEffect::Emit(x) => match b {
            ServiceEffect::Emit(y) => same_event(x, y),
            _ => false,
        },
        ServiceEffect::Persist(x) => match b {
            ServiceEffect::Persist(y) => same_command(x, y),
            _ => false,
        },
    }
}

/// The effects carried out are those expected, one for one and in order.
pub open spec fn effects_match(actual: Seq<ServiceEffect>, expected: Seq<ServiceEffect>) -> bool {
    &&& actual.len() == expected.len()
    &&& forall|i: int| 0 <= i < actual.len() ==> #[trigger] same_effect(actual[i], expected[i])
}

/// Matching effects, one list after the other, still match.
pub proof fn lemma_effects_match_append(a1: Seq<ServiceEffect>, e1: Seq<ServiceEffect>, a2: Seq<ServiceEffect>, e2: Seq<ServiceEffect>)
    requires
        effects_match(a1, e1),
        effects_match(a2, e2),
    ensures
        effects_match(a1 + a2, e1 + e2),
{
    assert forall|i: int| 0 <= i < (a1 + a2).len() implies #[trigger] same_effect((a1 + a2)[i], (e1 + e2)[i]) by {
        if i < a1.len() {
            assert(same_effect(a1[i], e1[i]));
        } else {
            assert(same_effect(a2[i - a1.len()], e2[i - a1.len()]));
        }
    }
}

/// An effect emits an event.
pub open spec fn emit(e: WhatsAppEvent) -> ServiceEffect {
    ServiceEffect::Emit(e)
}

/// Recording a contact name and telling the user interface about it.
pub open spec fn name_effects(jid: String, name: String) -> Seq<ServiceEffect> {
    seq![
        ServiceEffect::Persist(StorageCommand::UpsertContactName { jid, name }),
        emit(WhatsAppEvent::ContactNameUpdated { jid: Jid(jid), name }),
    ]
}

/// The message shown for a live message.
pub open spec fn live_message(m: IncomingMessage) -> ChatMessage {
    ChatMessage {
        id: m.id,
        sender: Jid(m.sender),
        chat: Jid(m.chat),
        content: content_of(m.content),
        timestamp: m.timestamp,
        is_from_me: m.is_from_me,
        status: MessageStatus::Delivered,
        quoted_message: None,
    }
}

/// The record kept of a live message.
pub open spec fn live_stored(m: IncomingMessage) -> StoredMessage {
    StoredMessage {
        message_id: m.id,
        sender_jid: m.sender,
        chat_jid: m.chat,
        is_from_me: m.is_from_me,
        timestamp_ms: millis_of(m.timestamp as int) as i64,
        status: MessageStatus::Delivered,
        raw_message: m.raw_message,
    }
}

/// A live message is kept, its sender's push name (when not empty) is kept
/// and announced, and the message is shown.
pub open spec fn message_effects(m: IncomingMessage) -> Seq<ServiceEffect> {
    seq![ServiceEffect::Persist(StorageCommand::UpsertMessage(live_stored(m)))] + (if m.push_name@.len() > 0 {
        name_effects(m.sender, m.push_name)
    } else {
        Seq::empty()
    }) + seq![emit(WhatsAppEvent::MessageReceived(live_message(m)))]
}

/// The status a receipt gives: read for read receipts, delivered for
/// delivery receipts, sent for any other.
pub open spec fn receipt_status(kind: ReceiptKind) -> MessageStatus {
    match kind {
        ReceiptKind::Read => MessageStatus::Read,
        ReceiptKind::ReadSelf => MessageStatus::Read,
        ReceiptKind::Delivered => MessageStatus::Delivered,
        ReceiptKind::Other => MessageStatus::Sent,
    }
}

/// One status update per message of the receipt, in order.
pub open spec fn receipt_effects(kind: ReceiptKind, chat: String, ids: Seq<String>) -> Seq<ServiceEffect> {
    ids.map_values(
        |id: String|
            emit(
                WhatsAppEvent::MessageStatusUpdated {
                    message_id: id,
                    chat_jid: Jid(chat),
                    status: receipt_status(kind),
                },
            ),
    )
}

/// The typing state of a chat presence: composing audio is recording,
/// composing anything else is typing, a pause is idle.
pub open spec fn presence_typing(composing: bool, audio: bool) -> TypingState {
    if composing {
        if audio {
            TypingState::Recording
        } else {
            TypingState::Typing
        }
    } else {
        TypingState::Idle
    }
}

/// The name of a joined conversation: its display name, else its name,
/// else its username, else the label of its phone-number JID, else the
/// label of its id.
pub open spec fn joined_name(c: JoinedConversation) -> Seq<char> {
    match c.display_name {
        Some(n) => n@,
        None => match c.name {
            Some(n) => n@,
            None => match c.username {
                Some(n) => n@,
                None => match c.pn_jid {
                    Some(p) => jid_normalized_user(p@),
                    None => jid_normalized_user(c.id@),
                },
            },
        },
    }
}

/// The instant of an optional count of seconds, when `chrono` represents it.
pub open spec fn instant_of_seconds(ts: Option<u64>) -> Option<Timestamp> {
    match ts {
        Some(t) => if chrono_accepts_seconds(t as i64) {
            Some(((t as i64) * 1_000_000_000) as i128)
        } else {
            None
        },
        None => None,
    }
}

/// The last activity of a joined conversation: its conversation time, else
/// the time of its last message.
pub open spec fn joined_activity(c: JoinedConversation) -> Option<Timestamp> {
    instant_of_seconds(
        match c.conversation_timestamp {
            Some(t) => Some(t),
            None => c.last_msg_timestamp,
        },
    )
}

/// The chat of a joined conversation.
pub open spec fn joined_chat(c: JoinedConversation) -> Chat {
    Chat {
        jid: Jid(c.id),
        name: choose|s: String| s@ == joined_name(c),
        last_message: None,
        last_activity: joined_activity(c),
        is_group: contains_seq(c.id@, group_marker()),
        unread_count: match c.unread_count {
            Some(n) => n,
            None => 0,
        },
        is_muted: match c.mute_end_time {
            Some(t) => t > 0,
            None => false,
        },
        is_pinned: match c.pinned {
            Some(p) => p > 0,
            None => false,
        },
    }
}

/// The chat JID of a synced message: its remote JID, else the conversation's.
pub open spec fn history_chat_jid(h: HistoryItem, conv_id: String) -> String {
    match h.remote_jid {
        Some(r) => r,
        None => conv_id,
    }
}

/// The sender of a synced message: its participant, else its chat JID.
pub open spec fn history_sender(h: HistoryItem, conv_id: String) -> String {
    match h.participant {
        Some(p) => p,
        None => history_chat_jid(h, conv_id),
    }
}

/// The time of a synced message: its own, when `chrono` represents it, else `now`.
pub open spec fn history_time(h: HistoryItem, now: Timestamp) -> Timestamp {
    match instant_of_seconds(h.message_timestamp) {
        Some(t) => t,
        None => now,
    }
}

/// `history_`, the prefix of ids made up for synced messages without one.
pub open spec fn history_prefix() -> Seq<char> {
    seq!['h', 'i', 's', 't', 'o', 'r', 'y', '_']
}

/// The id of a synced message: its own, else `history_<chat>_<millis>`.
pub open spec fn history_id(h: HistoryItem, conv_id: String, now: Timestamp) -> Seq<char> {
    match h.id {
        Some(i) => i@,
        None => history_prefix() + history_chat_jid(h, conv_id)@ + seq!['_'] + decimal_text(
            millis_of(history_time(h, now) as int),
        ),
    }
}

/// The message shown for a synced message.
pub open spec fn history_message(h: HistoryItem, conv_id: String, now: Timestamp) -> ChatMessage {
    ChatMessage {
        id: choose|s: String| s@ == history_id(h, conv_id, now),
        sender: Jid(history_sender(h, conv_id)),
        chat: Jid(history_chat_jid(h, conv_id)),
        content: content_of(h.content),
        timestamp: history_time(h, now),
        is_from_me: match h.from_me {
            Some(b) => b,
            None => false,
        },
        status: MessageStatus::Delivered,
        quoted_message: None,
    }
}

/// The record kept of a synced message.
pub open spec fn history_stored(h: HistoryItem, conv_id: String, now: Timestamp) -> StoredMessage {
    StoredMessage {
        message_id: choose|s: String| s@ == history_id(h, conv_id, now),
        sender_jid: history_sender(h, conv_id),
        chat_jid: history_chat_jid(h, conv_id),
        is_from_me: match h.from_me {
            Some(b) => b,
            None => false,
        },
        timestamp_ms: millis_of(history_time(h, now) as int) as i64,
        status: MessageStatus::Delivered,
        raw_message: h.raw_message,
    }
}

/// Number of the last messages of a synced conversation that are shown.
pub open spec fn shown_tail() -> int {
    80
}

/// A synced message is kept; it is also shown when it is among the last 80
/// of its conversation.
pub open spec fn item_effects(item: Option<HistoryItem>, idx: int, total: int, conv_id: String, now: Timestamp) -> Seq<ServiceEffect> {
    match item {
        None => Seq::empty(),
        Some(h) => seq![ServiceEffect::Persist(StorageCommand::UpsertMessage(history_stored(h, conv_id, now)))]
            + if idx + shown_tail() >= total {
            seq![emit(WhatsAppEvent::MessageReceived(history_message(h, conv_id, now)))]
        } else {
            Seq::empty()
        },
    }
}

/// The effects of the synced messages, in order.
pub open spec fn history_effects(items: Seq<Option<HistoryItem>>, total: int, conv_id: String, now: Timestamp) -> Seq<ServiceEffect>
    decreases items.len(),
{
    if items.len() == 0 {
        Seq::empty()
    } else {
        history_effects(items.drop_last(), total, conv_id, now) + item_effects(
            items.last(),
            items.len() - 1,
            total,
            conv_id,
            now,
        )
    }
}

/// One more conversation synced (the count saturates).
pub open spec fn synced_one(c: SyncCounters) -> SyncCounters {
    SyncCounters {
        current: if c.current == u32::MAX {
            u32::MAX
        } else {
            (c.current + 1) as u32
        },
        total_hint: c.total_hint,
    }
}

/// The total reported with the progress: the announced total, but never
/// less than the count so far.
pub open spec fn reported_total(c: SyncCounters) -> u32 {
    match c.total_hint {
        Some(h) => if h >= c.current {
            h
        } else {
            c.current
        },
        None => c.current,
    }
}

/// A joined conversation with an id is kept and shown; its synced messages,
/// when it came with them, follow; then it counts as synced and the sync
/// progress is reported.
pub open spec fn joined_effects(c: JoinedConversation, counters: SyncCounters, now: Timestamp) -> Seq<ServiceEffect> {
    if c.id@.len() == 0 {
        Seq::empty()
    } else {
        seq![
            ServiceEffect::Persist(
                StorageCommand::UpsertChat { chat: joined_chat(c), raw_conversation: Some(c.raw_conversation) },
            ),
            emit(WhatsAppEvent::ChatUpdated(joined_chat(c))),
        ] + match c.messages {
            Some(items) => history_effects(items@, items@.len() as int, c.id, now),
            None => Seq::empty(),
        } + seq![
            emit(
                WhatsAppEvent::HistorySyncProgress {
                    current: synced_one(counters).current,
                    total: reported_total(synced_one(counters)),
                },
            ),
        ]
    }
}

/// The name of a contact update: the full name, else the first name, when
/// it is not blank.
pub open spec fn contact_name(full_name: Option<String>, first_name: Option<String>) -> Option<String> {
    let n = match full_name {
        Some(f) => Some(f),
        None => first_name,
    };
    if non_blank(n) {
        n
    } else {
        None
    }
}

/// Name effects for an optional JID.
pub open spec fn optional_name_effects(jid: Option<String>, name: String) -> Seq<ServiceEffect> {
    match jid {
        Some(j) => name_effects(j, name),
        None => Seq::empty(),
    }
}

/// A named contact update records the name for the contact's JID, then for
/// its phone-number JID and its LID, when they are given.
pub open spec fn contact_effects(
    jid: String,
    full_name: Option<String>,
    first_name: Option<String>,
    pn_jid: Option<String>,
    lid_jid: Option<String>,
) -> Seq<ServiceEffect> {
    match contact_name(full_name, first_name) {
        Some(name) => name_effects(jid, name) + optional_name_effects(pn_jid, name) + optional_name_effects(
            lid_jid,
            name,
        ),
        None => Seq::empty(),
    }
}

/// The effects of a client event, given the sync counters and the time
/// used for synced messages without a valid time of their own.
pub open spec fn effects_of(event: ServiceEvent, counters: SyncCounters, now: Timestamp) -> Seq<ServiceEffect> {
    match event {
        ServiceEvent::PairingQrCode { code } => seq![
            emit(WhatsAppEvent::QrCodeReceived { qr_code: code }),
            emit(WhatsAppEvent::ConnectionStateChanged(ConnectionState::WaitingForQr { qr_code: code })),
        ],
        ServiceEvent::PairingCode { code } => seq![
            emit(WhatsAppEvent::PairCodeReceived { code }),
            emit(WhatsAppEvent::ConnectionStateChanged(ConnectionState::WaitingForPairCode { code })),
        ],
        ServiceEvent::Connected => seq![
            emit(WhatsAppEvent::Connected(vstd::pervasive::arbitrary())),
            emit(WhatsAppEvent::ConnectionStateChanged(ConnectionState::Connected)),
        ],
        ServiceEvent::Disconnected => seq![emit(WhatsAppEvent::ConnectionStateChanged(ConnectionState::Reconnecting))],
        ServiceEvent::LoggedOut => seq![emit(WhatsAppEvent::ConnectionStateChanged(ConnectionState::LoggedOut))],
        ServiceEvent::Message(m) => message_effects(m),
        ServiceEvent::Receipt { kind, chat, message_ids } => receipt_effects(kind, chat, message_ids@),
        ServiceEvent::ChatPresence { chat, sender, composing, audio } => seq![
            emit(
                WhatsAppEvent::TypingIndicator {
                    chat_jid: Jid(chat),
                    sender_jid: Jid(sender),
                    state: presence_typing(composing, audio),
                },
            ),
        ],
        ServiceEvent::Presence { from, unavailable, last_seen } => seq![
            emit(WhatsAppEvent::PresenceUpdated(Presence { jid: Jid(from), is_online: !unavailable, last_seen })),
        ],
        ServiceEvent::OfflineSyncPreview { total } => seq![
            emit(WhatsAppEvent::HistorySyncProgress { current: 0, total: total as u32 }),
        ],
        ServiceEvent::OfflineSyncCompleted => seq![emit(WhatsAppEvent::HistorySyncCompleted)],
        ServiceEvent::JoinedGroup(conv) => match conv {
            Some(c) => joined_effects(c, counters, now),
            None => Seq::empty(),
        },
        ServiceEvent::ContactUpdate { jid, full_name, first_name, pn_jid, lid_jid } => contact_effects(
            jid,
            full_name,
            first_name,
            pn_jid,
            lid_jid,
        ),
        ServiceEvent::PushNameUpdate { jid, new_push_name } => if non_blank(Some(new_push_name)) {
            name_effects(jid, new_push_name)
        } else {
            Seq::empty()
        },
        ServiceEvent::Other => Seq::empty(),
    }
}

/// The sync counters after a client event: a sync preview restarts the
/// count and records the announced total (negative totals as zero), the
/// end of the sync forgets the total, and each joined conversation with an
/// id counts one more.
pub open spec fn counters_after(event: ServiceEvent, c: SyncCounters) -> SyncCounters {
    match event {
        ServiceEvent::OfflineSyncPreview { total } => SyncCounters {
            current: 0,
            total_hint: Some(
                if total < 0 {
                    0u32
                } else {
                    total as u32
                },
            ),
        },
        ServiceEvent::OfflineSyncCompleted => SyncCounters { current: c.current, total_hint: None },
        ServiceEvent::JoinedGroup(conv) => match conv {
            Some(j) => if j.id@.len() > 0 {
                synced_one(c)
            } else {
                c
            },
            None => c,
        },
        _ => c,
    }
}

/// A JID of the client from its text.
fn jid_of(s: String) -> (r: Jid)
    ensures
        r == Jid(s),
{
    Jid(s)
}

/// Recording a contact name and telling the user interface about it.
fn name_effect_list(jid: String, name: String) -> (r: Vec<ServiceEffect>)
    ensures
        effects_match(r@, name_effects(jid, name)),
{
    let r = vec![
        ServiceEffect::Persist(StorageCommand::UpsertContactName { jid: jid.clone(), name: name.clone() }),
        ServiceEffect::Emit(WhatsAppEvent::ContactNameUpdated { jid: jid_of(jid), name }),
    ];
    assert(same_effect(r@[0], name_effects(jid, name)[0]));
    assert(same_effect(r@[1], name_effects(jid, name)[1]));
    r
}

/// `a` followed by `b`.
fn join_effects(a: Vec<ServiceEffect>, b: Vec<ServiceEffect>, Ghost(ea): Ghost<Seq<ServiceEffect>>, Ghost(eb): Ghost<Seq<ServiceEffect>>) -> (r: Vec<ServiceEffect>)
    requires
        effects_match(a@, ea),
        effects_match(b@, eb),
    ensures
        effects_match(r@, ea + eb),
{
    let mut a = a;
    let mut b = b;
    proof {
        lemma_effects_match_append(a@, ea, b@, eb);
    }
    a.append(&mut b);
    a
}

/// What the service does with a live message.
fn message_event_effects(m: IncomingMessage) -> (r: Vec<ServiceEffect>)
    ensures
        effects_match(r@, message_effects(m)),
{
    let ghost gm = m;
    let IncomingMessage { id, sender, chat, is_from_me, timestamp, push_name, content, raw_message } = m;
    let stored = StoredMessage {
        message_id: id.clone(),
        sender_jid: sender.clone(),
        chat_jid: chat.clone(),
        is_from_me,
        timestamp_ms: clock::millis(timestamp),
        status: MessageStatus::Delivered,
        raw_message,
    };
    let first = vec![ServiceEffect::Persist(StorageCommand::UpsertMessage(stored))];
    assert(same_effect(first@[0], message_effects(gm)[0]));
    let ghost e1 = seq![ServiceEffect::Persist(StorageCommand::UpsertMessage(live_stored(gm)))];
    assert(effects_match(first@, e1));
    let ghost e2 = if gm.push_name@.len() > 0 {
        name_effects(gm.sender, gm.push_name)
    } else {
        Seq::<ServiceEffect>::empty()
    };
    let names = if !push_name.as_str().is_empty() {
        name_effect_list(sender.clone(), push_name)
    } else {
        Vec::new()
    };
    let msg = ChatMessage {
        id,
        sender: jid_of(sender),
        chat: jid_of(chat),
        content: parse_message_content(content),
        timestamp,
        is_from_me,
        status: MessageStatus::Delivered,
        quoted_message: None,
    };
    let last = vec![ServiceEffect::Emit(WhatsAppEvent::MessageReceived(msg))];
    let ghost e3 = seq![emit(WhatsAppEvent::MessageReceived(live_message(gm)))];
    assert(same_effect(last@[0], e3[0]));
    let r = join_effects(join_effects(first, names, Ghost(e1), Ghost(e2)), last, Ghost(e1 + e2), Ghost(e3));
    assert(message_effects(gm) == e1 + e2 + e3);
    r
}

/// One status update per message of a receipt.
fn receipt_event_effects(kind: ReceiptKind, chat: String, message_ids: Vec<String>) -> (r: Vec<ServiceEffect>)
    ensures
        effects_match(r@, receipt_effects(kind, chat, message_ids@)),
{
    let status = match kind {
        ReceiptKind::Read => MessageStatus::Read,
        ReceiptKind::ReadSelf => MessageStatus::Read,
        ReceiptKind::Delivered => MessageStatus::Delivered,
        ReceiptKind::Other => MessageStatus::Sent,
    };
    let ghost all = message_ids@;
    let mut rest = message_ids;
    let mut out: Vec<ServiceEffect> = Vec::new();
    while rest.len() > 0
        invariant
            status == receipt_status(kind),
            out@.len() + rest@.len() == all.len(),
            rest@ == all.skip(out@.len() as int),
            effects_match(out@, receipt_effects(kind, chat, all.take(out@.len() as int))),
        decreases rest@.len(),
    {
        let ghost k = out@.len() as int;
        let id = rest.remove(0);
        assert(id == all[k]);
        out.push(
            ServiceEffect::Emit(
                WhatsAppEvent::MessageStatusUpdated { message_id: id, chat_jid: jid_of(chat.clone()), status },
            ),
        );
        proof {
            let e = receipt_effects(kind, chat, all.take(k + 1));
            assert(e.len() == k + 1);
            assert forall|i: int| 0 <= i < out@.len() implies #[trigger] same_effect(out@[i], e[i]) by {
                if i < k {
                    assert(same_effect(out@[i], receipt_effects(kind, chat, all.take(k))[i]));
                    assert(receipt_effects(kind, chat, all.take(k))[i] == e[i]);
                } else {
                    assert(e[i] == emit(
                        WhatsAppEvent::MessageStatusUpdated {
                            message_id: all[k],
                            chat_jid: Jid(chat),
                            status: receipt_status(kind),
                        },
                    ));
                }
            }
        }
        assert(rest@ =~= all.skip(k + 1));
    }
    assert(all.take(all.len() as int) =~= all);
    out
}

/// The typing state of a chat presence.
fn typing_of_presence(composing: bool, audio: bool) -> (r: TypingState)
    ensures
        r == presence_typing(composing, audio),
{
    if composing {
        if audio {
            TypingState::Recording
        } else {
            TypingState::Typing
        }
    } else {
        TypingState::Idle
    }
}

/// The instant of an optional count of seconds.
fn seconds_instant(ts: Option<u64>) -> (r: Option<Timestamp>)
    ensures
        r == instant_of_seconds(ts),
{
    match ts {
        Some(t) => clock::from_unix_seconds(t as i64),
        None => None,
    }
}

/// The effects of one synced message at position `idx` of `total`.
fn history_item_effects(item: Option<HistoryItem>, idx: usize, total: usize, conv_id: &String, now: Timestamp) -> (r: Vec<ServiceEffect>)
    requires
        idx < total,
    ensures
        effects_match(r@, item_effects(item, idx as int, total as int, *conv_id, now)),
{
    match item {
        None => Vec::new(),
        Some(h) => {
            let ghost gh = h;
            let HistoryItem { id, remote_jid, participant, from_me, message_timestamp, content, raw_message } = h;
            let chat_jid = match remote_jid {
                Some(r) => r,
                None => conv_id.clone(),
            };
            let sender_jid = match participant {
                Some(p) => p,
                None => chat_jid.clone(),
            };
            let timestamp = match seconds_instant(message_timestamp) {
                Some(t) => t,
                None => now,
            };
            assert(timestamp == history_time(gh, now));
            let millis = clock::millis(timestamp);
            let id = match id {
                Some(i) => i,
                None => {
                    let prefix = string_from(vec!['h', 'i', 's', 't', 'o', 'r', 'y', '_']);
                    let with_chat = concat(prefix.as_str(), chat_jid.as_str());
                    let sep = string_from(vec!['_']);
                    let with_sep = concat(with_chat.as_str(), sep.as_str());
                    let digits = decimal_string(millis);
                    let made = concat(with_sep.as_str(), digits.as_str());
                    assert(made@ == history_id(gh, *conv_id, now));
                    made
                },
            };
            assert(id@ == history_id(gh, *conv_id, now));
            let is_from_me = match from_me {
                Some(b) => b,
                None => false,
            };
            let stored = StoredMessage {
                message_id: id.clone(),
                sender_jid: sender_jid.clone(),
                chat_jid: chat_jid.clone(),
                is_from_me,
                timestamp_ms: millis,
                status: MessageStatus::Delivered,
                raw_message,
            };
            let ghost e1 = seq![ServiceEffect::Persist(StorageCommand::UpsertMessage(history_stored(gh, *conv_id, now)))];
            let first = vec![ServiceEffect::Persist(StorageCommand::UpsertMessage(stored))];
            assert(same_effect(first@[0], e1[0]));
            if total - idx <= 80 {
                let msg = ChatMessage {
                    id,
                    sender: jid_of(sender_jid),
                    chat: jid_of(chat_jid),
                    content: parse_message_content(content),
                    timestamp,
                    is_from_me,
                    status: MessageStatus::Delivered,
                    quoted_message: None,
                };
                let ghost e2 = seq![emit(WhatsAppEvent::MessageReceived(history_message(gh, *conv_id, now)))];
                let second = vec![ServiceEffect::Emit(WhatsAppEvent::MessageReceived(msg))];
                assert(same_effect(second@[0], e2[0]));
                join_effects(first, second, Ghost(e1), Ghost(e2))
            } else {
                assert(e1 + Seq::<ServiceEffect>::empty() == e1);
                first
            }
        },
    }
}

/// The effects of the synced messages of a conversation, in order.
fn history_event_effects(items: Vec<Option<HistoryItem>>, conv_id: &String, now: Timestamp) -> (r: Vec<ServiceEffect>)
    ensures
        effects_match(r@, history_effects(items@, items@.len() as int, *conv_id, now)),
{
    let ghost all = items@;
    let total = items.len();
    let mut rest = items;
    let mut idx: usize = 0;
    let mut out: Vec<ServiceEffect> = Vec::new();
    while rest.len() > 0
        invariant
            all.len() == total,
            idx + rest@.len() == total,
            rest@ == all.skip(idx as int),
            effects_match(out@, history_effects(all.take(idx as int), total as int, *conv_id, now)),
        decreases rest@.len(),
    {
        let item = rest.remove(0);
        assert(item == all[idx as int]);
        let more = history_item_effects(item, idx, total, conv_id, now);
        proof {
            let t = all.take(idx + 1);
            assert(t.drop_last() == all.take(idx as int));
            assert(t.last() == all[idx as int]);
        }
        out = join_effects(
            out,
            more,
            Ghost(history_effects(all.take(idx as int), total as int, *conv_id, now)),
            Ghost(item_effects(all[idx as int], idx as int, total as int, *conv_id, now)),
        );
        idx = idx + 1;
        assert(rest@ =~= all.skip(idx as int));
    }
    assert(all.take(total as int) =~= all);
    out
}

/// The name of a joined conversation.
fn joined_name_of(
    id: &String,
    display_name: Option<String>,
    name: Option<String>,
    username: Option<String>,
    pn_jid: Option<String>,
) -> (r: String)
    ensures
        r@ == (match display_name {
            Some(n) => n@,
            None => match name {
                Some(n) => n@,
                None => match username {
                    Some(n) => n@,
                    None => match pn_jid {
                        Some(p) => jid_normalized_user(p@),
                        None => jid_normalized_user(id@),
                    },
                },
            },
        }),
{
    match display_name {
        Some(n) => n,
        None => match name {
            Some(n) => n,
            None => match username {
                Some(n) => n,
                None => match pn_jid {
                    Some(p) => Jid(p).display_label(),
                    None => Jid(id.clone()).display_label(),
                },
            },
        },
    }
}

/// The sync counters after one more synced conversation, and the progress
/// event reported for it.
fn count_synced(counters: &mut SyncCounters) -> (r: ServiceEffect)
    ensures
        *final(counters) == synced_one(*old(counters)),
        r == emit(
            WhatsAppEvent::HistorySyncProgress {
                current: synced_one(*old(counters)).current,
                total: reported_total(synced_one(*old(counters))),
            },
        ),
{
    counters.current = counters.current.saturating_add(1);
    let current = counters.current;
    let total = match counters.total_hint {
        Some(h) => if h >= current {
            h
        } else {
            current
        },
        None => current,
    };
    ServiceEffect::Emit(WhatsAppEvent::HistorySyncProgress { current, total })
}

/// What the service does with a joined conversation.
fn joined_event_effects(c: JoinedConversation, counters: &mut SyncCounters, now: Timestamp) -> (r: Vec<ServiceEffect>)
    ensures
        effects_match(r@, joined_effects(c, *old(counters), now)),
        *final(counters) == (if c.id@.len() > 0 {
            synced_one(*old(counters))
        } else {
            *old(counters)
        }),
{
    let ghost gc = c;
    let ghost before = *counters;
    if c.id.as_str().is_empty() {
        return Vec::new();
    }
    let JoinedConversation {
        id,
        display_name,
        name,
        username,
        pn_jid,
        conversation_timestamp,
        last_msg_timestamp,
        unread_count,
        mute_end_time,
        pinned,
        raw_conversation,
        messages,
    } = c;
    let chat_name = joined_name_of(&id, display_name, name, username, pn_jid);
    let activity_secs = match conversation_timestamp {
        Some(t) => Some(t),
        None => last_msg_timestamp,
    };
    let jid = jid_of(id.clone());
    let is_group = jid.is_group();
    let chat = Chat {
        jid,
        name: chat_name,
        last_message: None,
        last_activity: seconds_instant(activity_secs),
        is_group,
        unread_count: match unread_count {
            Some(n) => n,
            None => 0,
        },
        is_muted: match mute_end_time {
            Some(t) => t > 0,
            None => false,
        },
        is_pinned: match pinned {
            Some(p) => p > 0,
            None => false,
        },
    };
    assert(same_chat(chat, joined_chat(gc)));
    let ghost e1 = seq![
        ServiceEffect::Persist(
            StorageCommand::UpsertChat { chat: joined_chat(gc), raw_conversation: Some(gc.raw_conversation) },
        ),
        emit(WhatsAppEvent::ChatUpdated(joined_chat(gc))),
    ];
    let first = vec![
        ServiceEffect::Persist(StorageCommand::UpsertChat { chat: chat.clone(), raw_conversation: Some(raw_conversation) }),
        ServiceEffect::Emit(WhatsAppEvent::ChatUpdated(chat)),
    ];
    assert(same_effect(first@[0], e1[0]));
    assert(same_effect(first@[1], e1[1]));
    let ghost e2 = match gc.messages {
        Some(items) => history_effects(items@, items@.len() as int, gc.id, now),
        None => Seq::<ServiceEffect>::empty(),
    };
    let synced = match messages {
        Some(items) => history_event_effects(items, &id, now),
        None => Vec::new(),
    };
    let progress = count_synced(counters);
    let ghost e3 = seq![progress];
    let tail = vec![progress];
    let rest = join_effects(synced, tail, Ghost(e2), Ghost(e3));
    let r = join_effects(first, rest, Ghost(e1), Ghost(e2 + e3));
    assert(e1 + (e2 + e3) =~= e1 + e2 + e3);
    r
}

/// The name of a contact update, when it is not blank.
fn contact_name_of(full_name: Option<String>, first_name: Option<String>) -> (r: Option<String>)
    ensures
        r == contact_name(full_name, first_name),
{
    let n = match full_name {
        Some(f) => Some(f),
        None => first_name,
    };
    match n {
        Some(name) => if trim(name.as_str()).is_empty() {
            None
        } else {
            Some(name)
        },
        None => None,
    }
}

/// Name effects for an optional JID.
fn optional_name_effect_list(jid: Option<String>, name: &String) -> (r: Vec<ServiceEffect>)
    ensures
        effects_match(r@, optional_name_effects(jid, *name)),
{
    match jid {
        Some(j) => name_effect_list(j, name.clone()),
        None => Vec::new(),
    }
}

/// What the service does with a contact update.
fn contact_event_effects(
    jid: String,
    full_name: Option<String>,
    first_name: Option<String>,
    pn_jid: Option<String>,
    lid_jid: Option<String>,
) -> (r: Vec<ServiceEffect>)
    ensures
        effects_match(r@, contact_effects(jid, full_name, first_name, pn_jid, lid_jid)),
{
    match contact_name_of(full_name, first_name) {
        Some(name) => {
            let ghost e1 = name_effects(jid, name);
            let ghost e2 = optional_name_effects(pn_jid, name);
            let ghost e3 = optional_name_effects(lid_jid, name);
            let a = name_effect_list(jid, name.clone());
            let b = optional_name_effect_list(pn_jid, &name);
            let c = optional_name_effect_list(lid_jid, &name);
            join_effects(join_effects(a, b, Ghost(e1), Ghost(e2)), c, Ghost(e1 + e2), Ghost(e3))
        },
        None => Vec::new(),
    }
}

/// What the service does with a new push name.
fn push_name_event_effects(jid: String, new_push_name: String) -> (r: Vec<ServiceEffect>)
    ensures
        effects_match(
            r@,
            if non_blank(Some(new_push_name)) {
                name_effects(jid, new_push_name)
            } else {
                Seq::empty()
            },
        ),
{
    if trim(new_push_name.as_str()).is_empty() {
        Vec::new()
    } else {
        name_effect_list(jid, new_push_name)
    }
}

/// What the service does with a client event: the effects to carry out in
/// order (`effects_of`) and the sync counters after it (`counters_after`).
/// `now` is the time given to synced messages without a valid time.
pub fn handle_internal_event_at(event: ServiceEvent, connection: &Connection, counters: &mut SyncCounters, now: Timestamp) -> (r: Vec<ServiceEffect>)
    ensures
        effects_match(r@, effects_of(event, *old(counters), now)),
        *final(counters) == counters_after(event, *old(counters)),
{
    let ghost before = *counters;
    let ghost ev = event;
    match event {
        ServiceEvent::PairingQrCode { code } => {
            let r = vec![
                ServiceEffect::Emit(WhatsAppEvent::QrCodeReceived { qr_code: code.clone() }),
                ServiceEffect::Emit(WhatsAppEvent::ConnectionStateChanged(ConnectionState::WaitingForQr { qr_code: code })),
            ];
            assert(same_effect(r@[0], effects_of(ev, before, now)[0]));
            assert(same_effect(r@[1], effects_of(ev, before, now)[1]));
            r
        },
        ServiceEvent::PairingCode { code } => {
            let r = vec![
                ServiceEffect::Emit(WhatsAppEvent::PairCodeReceived { code: code.clone() }),
                ServiceEffect::Emit(
                    WhatsAppEvent::ConnectionStateChanged(ConnectionState::WaitingForPairCode { code }),
                ),
            ];
            assert(same_effect(r@[0], effects_of(ev, before, now)[0]));
            assert(same_effect(r@[1], effects_of(ev, before, now)[1]));
            r
        },
        ServiceEvent::Connected => {
            let r = vec![
                ServiceEffect::Emit(WhatsAppEvent::Connected(connection.clone())),
                ServiceEffect::Emit(WhatsAppEvent::ConnectionStateChanged(ConnectionState::Connected)),
            ];
            assert(same_effect(r@[0], effects_of(ev, before, now)[0]));
            assert(same_effect(r@[1], effects_of(ev, before, now)[1]));
            r
        },
        ServiceEvent::Disconnected => {
            let r = vec![ServiceEffect::Emit(WhatsAppEvent::ConnectionStateChanged(ConnectionState::Reconnecting))];
            assert(same_effect(r@[0], effects_of(ev, before, now)[0]));
            r
        },
        ServiceEvent::LoggedOut => {
            let r = vec![ServiceEffect::Emit(WhatsAppEvent::ConnectionStateChanged(ConnectionState::LoggedOut))];
            assert(same_effect(r@[0], effects_of(ev, before, now)[0]));
            r
        },
        ServiceEvent::Message(m) => message_event_effects(m),
        ServiceEvent::Receipt { kind, chat, message_ids } => receipt_event_effects(kind, chat, message_ids),
        ServiceEvent::ChatPresence { chat, sender, composing, audio } => {
            let r = vec![
                ServiceEffect::Emit(
                    WhatsAppEvent::TypingIndicator {
                        chat_jid: jid_of(chat),
                        sender_jid: jid_of(sender),
                        state: typing_of_presence(composing, audio),
                    },
                ),
            ];
            assert(same_effect(r@[0], effects_of(ev, before, now)[0]));
            r
        },
        ServiceEvent::Presence { from, unavailable, last_seen } => {
            let r = vec![
                ServiceEffect::Emit(
                    WhatsAppEvent::PresenceUpdated(Presence { jid: jid_of(from), is_online: !unavailable, last_seen }),
                ),
            ];
            assert(same_effect(r@[0], effects_of(ev, before, now)[0]));
            r
        },
        ServiceEvent::OfflineSyncPreview { total } => {
            counters.current = 0;
            counters.total_hint = Some(
                if total < 0 {
                    0u32
                } else {
                    total as u32
                },
            );
            let r = vec![ServiceEffect::Emit(WhatsAppEvent::HistorySyncProgress { current: 0, total: total as u32 })];
            assert(same_effect(r@[0], effects_of(ev, before, now)[0]));
            r
        },
        ServiceEvent::OfflineSyncCompleted => {
            counters.total_hint = None;
            let r = vec![ServiceEffect::Emit(WhatsAppEvent::HistorySyncCompleted)];
            assert(same_effect(r@[0], effects_of(ev, before, now)[0]));
            r
        },
        ServiceEvent::JoinedGroup(conv) => match conv {
            Some(c) => joined_event_effects(c, counters, now),
            None => Vec::new(),
        },
        ServiceEvent::ContactUpdate { jid, full_name, first_name, pn_jid, lid_jid } => contact_event_effects(
            jid,
            full_name,
            first_name,
            pn_jid,
            lid_jid,
        ),
        ServiceEvent::PushNameUpdate { jid, new_push_name } => push_name_event_effects(jid, new_push_name),
        ServiceEvent::Other => Vec::new(),
    }
}

/// What the service does with a client event, with the current time given
/// to synced messages without a valid time of their own.
pub fn handle_internal_event(event: ServiceEvent, connection: &Connection, counters: &mut SyncCounters) -> (r: Vec<ServiceEffect>)
    ensures
        exists|now: Timestamp| #[trigger] effects_match(r@, effects_of(event, *old(counters), now)),
        *final(counters) == counters_after(event, *old(counters)),
{
    let now = clock::now();
    handle_internal_event_at(event, connection, counters, now)
}

/// A receipt updates, one for one and in order, the status of every message
/// it lists, in the receipt's chat: a read receipt, the other person's or
/// one's own, marks the message read; a delivery receipt marks it
/// delivered; any other receipt marks it sent. It changes no counter.
pub proof fn lemma_receipt_marks(kind: ReceiptKind, chat: String, ids: Vec<String>, counters: SyncCounters, now: Timestamp)
    ensures
        ({
            let event = ServiceEvent::Receipt { kind, chat, message_ids: ids };
            let e = effects_of(event, counters, now);
            &&& e.len() == ids@.len()
            &&& counters_after(event, counters) == counters
            &&& forall|i: int|
                0 <= i < ids@.len() ==> (#[trigger] e[i] matches ServiceEffect::Emit(
                    WhatsAppEvent::MessageStatusUpdated { message_id, chat_jid, status },
                ) && message_id == ids@[i] && chat_jid.0 == chat && (kind == ReceiptKind::Read
                    ==> status == MessageStatus::Read) && (kind == ReceiptKind::ReadSelf ==> status
                    == MessageStatus::Read) && (kind == ReceiptKind::Delivered ==> status == MessageStatus::Delivered)
                    && (kind == ReceiptKind::Other ==> status == MessageStatus::Sent))
        }),
{
}

/// A chat presence becomes one typing indicator of the sender in the chat:
/// composing audio is recording, composing anything else is typing, and a
/// pause is idle.
pub proof fn lemma_presence_typing(
    chat: String,
    sender: String,
    composing: bool,
    audio: bool,
    counters: SyncCounters,
    now: Timestamp,
)
    ensures
        ({
            let event = ServiceEvent::ChatPresence { chat, sender, composing, audio };
            let e = effects_of(event, counters, now);
            &&& e.len() == 1
            &&& counters_after(event, counters) == counters
            &&& e[0] matches ServiceEffect::Emit(WhatsAppEvent::TypingIndicator { chat_jid, sender_jid, state })
                && chat_jid.0 == chat && sender_jid.0 == sender && (composing && audio ==> state
                == TypingState::Recording) && (composing && !audio ==> state == TypingState::Typing) && (!composing
                ==> state == TypingState::Idle)
        }),
{
}

} // verus!
