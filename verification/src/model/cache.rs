//! What the local cache keeps of chats and messages, and the stable order
//! by key in which lists are kept: messages by time, equal times keeping
//! the order they came in.

use vstd::prelude::*;
use crate::clock::{self, chrono_accepts_seconds, unix_seconds_of, Timestamp};
use crate::model::chat::{Chat, ChatMessage, MessageStatus};
use crate::rpc::Jid;

verus! {

/// Values that carry a key by which they are ordered, smallest first.
pub trait SortKey {
    /// The key of the value.
    spec fn order_key(&self) -> int;

    /// Whether the key of this value is not greater than that of `other`.
    fn not_after(&self, other: &Self) -> (r: bool)
        ensures
            r == (self.order_key() <= other.order_key()),
    ;
}

impl SortKey for ChatMessage {
    /// Messages are ordered by time.
    open spec fn order_key(&self) -> int {
        self.timestamp as int
    }

    fn not_after(&self, other: &Self) -> (r: bool) {
        self.timestamp <= other.timestamp
    }
}

/// The number of values of `s` whose key is not greater than `t`.
pub open spec fn count_not_later<T: SortKey>(s: Seq<T>, t: int) -> nat
    decreases s.len(),
{
    if s.len() == 0 {
        0
    } else {
        count_not_later(s.drop_last(), t) + if s.last().order_key() <= t {
            1nat
        } else {
            0nat
        }
    }
}

/// `s` with `x` inserted after every value whose key is not greater.
pub open spec fn insert_in_order<T: SortKey>(s: Seq<T>, x: T) -> Seq<T> {
    s.insert(count_not_later(s, x.order_key()) as int, x)
}

/// The values of `v` ordered by key, values with equal keys in the order of
/// `v`: each value in turn is inserted after those whose key is not greater.
pub open spec fn stable_sort<T: SortKey>(v: Seq<T>) -> Seq<T>
    decreases v.len(),
{
    if v.len() == 0 {
        Seq::empty()
    } else {
        insert_in_order(stable_sort(v.drop_last()), v.last())
    }
}

/// The values of `s` are in key order.
pub open spec fn in_key_order<T: SortKey>(s: Seq<T>) -> bool {
    forall|i: int, j: int| 0 <= i <= j < s.len() ==> s[i].order_key() <= s[j].order_key()
}

/// In an ordered list, the values whose key is not greater than `t` come first.
proof fn lemma_count_not_later<T: SortKey>(s: Seq<T>, t: int)
    requires
        in_key_order(s),
    ensures
        count_not_later(s, t) <= s.len(),
        forall|i: int| 0 <= i < count_not_later(s, t) ==> #[trigger] s[i].order_key() <= t,
        forall|i: int| count_not_later(s, t) <= i < s.len() ==> #[trigger] s[i].order_key() > t,
    decreases s.len(),
{
    if s.len() > 0 {
        let d = s.drop_last();
        assert(in_key_order(d));
        lemma_count_not_later(d, t);
        if s.last().order_key() <= t {
            assert forall|i: int| 0 <= i < count_not_later(s, t) implies #[trigger] s[i].order_key() <= t by {
                if i < d.len() {
                    assert(s[i] == d[i]);
                }
            }
            assert(count_not_later(d, t) == d.len()) by {
                if count_not_later(d, t) < d.len() {
                    let k = count_not_later(d, t) as int;
                    assert(d[k].order_key() > t);
                    assert(s[k].order_key() <= s[s.len() - 1].order_key());
                }
            }
        } else {
            assert forall|i: int| count_not_later(s, t) <= i < s.len() implies #[trigger] s[i].order_key() > t by {
                if i < d.len() {
                    assert(s[i] == d[i]);
                }
            }
            assert forall|i: int| 0 <= i < count_not_later(s, t) implies #[trigger] s[i].order_key() <= t by {
                assert(s[i] == d[i]);
            }
        }
    }
}

/// Inserting in order keeps a list in order and adds the value once.
proof fn lemma_insert_in_order<T: SortKey>(s: Seq<T>, x: T)
    requires
        in_key_order(s),
    ensures
        in_key_order(insert_in_order(s, x)),
        insert_in_order(s, x).to_multiset() == s.to_multiset().insert(x),
{
    let k = count_not_later(s, x.order_key()) as int;
    lemma_count_not_later(s, x.order_key());
    let r = insert_in_order(s, x);
    assert forall|i: int, j: int| 0 <= i <= j < r.len() implies r[i].order_key() <= r[j].order_key() by {
        if i < k && j < k {
            assert(r[i] == s[i] && r[j] == s[j]);
        } else if i < k && j == k {
            assert(r[i] == s[i]);
        } else if i < k {
            assert(r[i] == s[i] && r[j] == s[j - 1]);
        } else if i == k && j > k {
            assert(r[j] == s[j - 1]);
        } else if i > k {
            assert(r[i] == s[i - 1] && r[j] == s[j - 1]);
        }
    }
    vstd::seq_lib::to_multiset_insert(s, k, x);
}

/// Stable sorting orders by key and keeps every value: the result is in key
/// order and holds the same values as the input, as often.
pub proof fn lemma_stable_sort_orders<T: SortKey>(v: Seq<T>)
    ensures
        in_key_order(stable_sort(v)),
        stable_sort(v).to_multiset() == v.to_multiset(),
    decreases v.len(),
{
    if v.len() == 0 {
        assert(stable_sort(v) =~= Seq::<T>::empty());
        assert(v =~= Seq::<T>::empty());
    } else {
        let d = v.drop_last();
        lemma_stable_sort_orders(d);
        lemma_insert_in_order(stable_sort(d), v.last());
        assert(v == d.push(v.last()));
        vstd::seq_lib::to_multiset_build(d, v.last());
    }
}

/// The values of `s` whose key is `k`, in their order in `s`.
pub open spec fn with_key<T: SortKey>(s: Seq<T>, k: int) -> Seq<T> {
    s.filter(|x: T| x.order_key() == k)
}

/// A list without values of key `k` has none to pick.
proof fn lemma_with_key_none<T: SortKey>(s: Seq<T>, k: int)
    requires
        forall|i: int| 0 <= i < s.len() ==> #[trigger] s[i].order_key() != k,
    ensures
        with_key(s, k) == Seq::<T>::empty(),
    decreases s.len(),
{
    reveal(Seq::filter);
    if s.len() > 0 {
        let d = s.drop_last();
        assert forall|i: int| 0 <= i < d.len() implies #[trigger] d[i].order_key() != k by {
            assert(d[i] == s[i]);
        }
        lemma_with_key_none(d, k);
    }
}

/// A single value is picked exactly when its key is `k`.
proof fn lemma_with_key_single<T: SortKey>(x: T, k: int)
    ensures
        with_key(seq![x], k) == (if x.order_key() == k {
            seq![x]
        } else {
            Seq::<T>::empty()
        }),
{
    reveal_with_fuel(Seq::filter, 2);
    assert(seq![x].drop_last() =~= Seq::<T>::empty());
}

/// Stable sorting keeps the values of each key in the order they came in:
/// the values of key `k` of the sorted list are those of the input, in the
/// same order.
pub proof fn lemma_stable_sort_keeps_ties<T: SortKey>(v: Seq<T>, k: int)
    ensures
        with_key(stable_sort(v), k) == with_key(v, k),
    decreases v.len(),
{
    if v.len() == 0 {
        assert(stable_sort(v) =~= v);
    } else {
        let d = v.drop_last();
        let x = v.last();
        lemma_stable_sort_keeps_ties(d, k);
        lemma_stable_sort_orders(d);
        let s = stable_sort(d);
        let t = x.order_key();
        let p = count_not_later(s, t) as int;
        lemma_count_not_later(s, t);
        let front = s.take(p);
        let back = s.skip(p);
        assert(insert_in_order(s, x) =~= front + seq![x] + back);
        assert(s =~= front + back);
        assert(v =~= d + seq![x]);
        Seq::filter_distributes_over_add(front + seq![x], back, |y: T| y.order_key() == k);
        Seq::filter_distributes_over_add(front, seq![x], |y: T| y.order_key() == k);
        Seq::filter_distributes_over_add(front, back, |y: T| y.order_key() == k);
        Seq::filter_distributes_over_add(d, seq![x], |y: T| y.order_key() == k);
        lemma_with_key_single(x, k);
        if t == k {
            assert forall|i: int| 0 <= i < back.len() implies #[trigger] back[i].order_key() != k by {
                assert(back[i] == s[p + i]);
            }
            lemma_with_key_none(back, k);
            assert(with_key(front, k) + Seq::<T>::empty() =~= with_key(front, k));
            assert(with_key(front, k) + seq![x] + Seq::<T>::empty() =~= with_key(front, k) + seq![x]);
        } else {
            assert(with_key(front, k) + Seq::<T>::empty() =~= with_key(front, k));
            assert(with_key(d, k) + Seq::<T>::empty() =~= with_key(d, k));
        }
    }
}

/// The position after the values of the ordered `s` whose key is not
/// greater than that of `x`.
fn position_after<T: SortKey>(s: &Vec<T>, x: &T) -> (r: usize)
    requires
        in_key_order(s@),
    ensures
        r == count_not_later(s@, x.order_key()),
        r <= s@.len(),
{
    let ghost t = x.order_key();
    proof {
        lemma_count_not_later(s@, t);
    }
    let mut i: usize = s.len();
    while i > 0
        invariant
            i <= s@.len(),
            in_key_order(s@),
            t == x.order_key(),
            count_not_later(s@, t) <= s@.len(),
            forall|j: int| 0 <= j < count_not_later(s@, t) ==> #[trigger] s@[j].order_key() <= t,
            forall|j: int| count_not_later(s@, t) <= j < s@.len() ==> #[trigger] s@[j].order_key() > t,
            forall|j: int| i <= j < s@.len() ==> #[trigger] s@[j].order_key() > t,
        decreases i,
    {
        if s[i - 1].not_after(x) {
            assert(s@[i - 1].order_key() <= t);
            assert(count_not_later(s@, t) == i) by {
                let c = count_not_later(s@, t);
                if c < i {
                    assert(s@[i - 1].order_key() > t);
                }
                if c > i {
                    assert(s@[i as int].order_key() > t);
                }
            }
            return i;
        }
        i = i - 1;
    }
    assert(count_not_later(s@, t) == 0) by {
        if count_not_later(s@, t) > 0 {
            assert(s@[0].order_key() > t);
        }
    }
    0
}

/// The values ordered by key, values with equal keys in the order given.
pub fn sort_stably<T: SortKey>(v: Vec<T>) -> (r: Vec<T>)
    ensures
        r@ == stable_sort(v@),
{
    let ghost all = v@;
    let mut rest = v;
    let mut out: Vec<T> = Vec::new();
    let mut taken: usize = 0;
    let total = rest.len();
    while rest.len() > 0
        invariant
            all.len() == total,
            taken + rest@.len() == total,
            rest@ == all.skip(taken as int),
            out@ == stable_sort(all.take(taken as int)),
        decreases rest@.len(),
    {
        let x = rest.remove(0);
        assert(x == all[taken as int]);
        proof {
            lemma_stable_sort_orders(all.take(taken as int));
            assert(all.take(taken + 1).drop_last() == all.take(taken as int));
            assert(all.take(taken + 1).last() == x);
        }
        let k = position_after(&out, &x);
        out.insert(k, x);
        taken = taken + 1;
        assert(rest@ =~= all.skip(taken as int));
    }
    assert(all.take(taken as int) =~= all);
    out
}

/// The status of a cached message.
#[derive(Debug, Clone, Copy, PartialEq, Eq, Structural)]
pub enum CachedMessageStatus {
    Pending,
    Sent,
    Delivered,
    Read,
    Failed,
}

/// The cached form of a status.
pub open spec fn status_to_cached(s: MessageStatus) -> CachedMessageStatus {
    match s {
        MessageStatus::Pending => CachedMessageStatus::Pending,
        MessageStatus::Sent => CachedMessageStatus::Sent,
        MessageStatus::Delivered => CachedMessageStatus::Delivered,
        MessageStatus::Read => CachedMessageStatus::Read,
        MessageStatus::Failed => CachedMessageStatus::Failed,
    }
}

/// The status of a cached status.
pub open spec fn status_from_cached(s: CachedMessageStatus) -> MessageStatus {
    match s {
        CachedMessageStatus::Pending => MessageStatus::Pending,
        CachedMessageStatus::Sent => MessageStatus::Sent,
        CachedMessageStatus::Delivered => MessageStatus::Delivered,
        CachedMessageStatus::Read => MessageStatus::Read,
        CachedMessageStatus::Failed => MessageStatus::Failed,
    }
}

impl From<MessageStatus> for CachedMessageStatus {
    fn from(value: MessageStatus) -> (r: Self) {
        match value {
            MessageStatus::Pending => CachedMessageStatus::Pending,
            MessageStatus::Sent => CachedMessageStatus::Sent,
            MessageStatus::Delivered => CachedMessageStatus::Delivered,
            MessageStatus::Read => CachedMessageStatus::Read,
            MessageStatus::Failed => CachedMessageStatus::Failed,
        }
    }
}

impl vstd::std_specs::convert::FromSpecImpl<MessageStatus> for CachedMessageStatus {
    open spec fn obeys_from_spec() -> bool {
        true
    }

    open spec fn from_spec(v: MessageStatus) -> CachedMessageStatus {
        status_to_cached(v)
    }
}

impl From<CachedMessageStatus> for MessageStatus {
    fn from(value: CachedMessageStatus) -> (r: Self) {
        match value {
            CachedMessageStatus::Pending => MessageStatus::Pending,
            CachedMessageStatus::Sent => MessageStatus::Sent,
            CachedMessageStatus::Delivered => MessageStatus::Delivered,
            CachedMessageStatus::Read => MessageStatus::Read,
            CachedMessageStatus::Failed => MessageStatus::Failed,
        }
    }
}

impl vstd::std_specs::convert::FromSpecImpl<CachedMessageStatus> for MessageStatus {
    open spec fn obeys_from_spec() -> bool {
        true
    }

    open spec fn from_spec(v: CachedMessageStatus) -> MessageStatus {
        status_from_cached(v)
    }
}

/// Caching a status and reading it back gives the status.
pub proof fn lemma_cached_status_round_trip(s: MessageStatus)
    ensures
        status_from_cached(status_to_cached(s)) == s,
{
}

/// A chat as the cache keeps it.
#[derive(Debug)]
pub struct CachedChat {
    pub jid: String,
    pub name: String,
    pub last_message: String,
    pub unread_count: u32,
    pub is_pinned: bool,
}

/// A message as the cache keeps it, with its time in whole seconds.
#[derive(Debug)]
pub struct CachedMessage {
    pub id: String,
    pub is_from_me: bool,
    pub content: String,
    pub timestamp_unix: i64,
    pub status: CachedMessageStatus,
}

impl Clone for CachedMessage {
    fn clone(&self) -> (r: Self)
        ensures
            r == *self,
    {
        CachedMessage {
            id: self.id.clone(),
            is_from_me: self.is_from_me,
            content: self.content.clone(),
            timestamp_unix: self.timestamp_unix,
            status: self.status,
        }
    }
}

impl SortKey for CachedMessage {
    /// Cached messages are ordered by their time in seconds.
    open spec fn order_key(&self) -> int {
        self.timestamp_unix as int
    }

    fn not_after(&self, other: &Self) -> (r: bool) {
        self.timestamp_unix <= other.timestamp_unix
    }
}

/// The cached form of a chat.
pub open spec fn chat_to_cached(chat: Chat) -> CachedChat {
    CachedChat {
        jid: chat.jid.0,
        name: chat.name,
        last_message: chat.last_message,
        unread_count: chat.unread_count,
        is_pinned: chat.is_pinned,
    }
}

/// The chat of a cached chat; the cache keeps no activity time.
pub open spec fn chat_from_cached(chat: CachedChat) -> Chat {
    Chat {
        jid: Jid(chat.jid),
        name: chat.name,
        last_message: chat.last_message,
        last_activity: None,
        unread_count: chat.unread_count,
        is_pinned: chat.is_pinned,
    }
}

/// The cached form of a message.
pub open spec fn message_to_cached(m: ChatMessage) -> CachedMessage {
    CachedMessage {
        id: m.id,
        is_from_me: m.is_from_me,
        content: m.content,
        timestamp_unix: unix_seconds_of(m.timestamp as int) as i64,
        status: status_to_cached(m.status),
    }
}

impl<'a> From<&'a Chat> for CachedChat {
    fn from(chat: &'a Chat) -> (r: Self) {
        CachedChat {
            jid: chat.jid.0.clone(),
            name: chat.name.clone(),
            last_message: chat.last_message.clone(),
            unread_count: chat.unread_count,
            is_pinned: chat.is_pinned,
        }
    }
}

impl<'a> vstd::std_specs::convert::FromSpecImpl<&'a Chat> for CachedChat {
    open spec fn obeys_from_spec() -> bool {
        true
    }

    open spec fn from_spec(v: &'a Chat) -> CachedChat {
        chat_to_cached(*v)
    }
}

impl From<CachedChat> for Chat {
    fn from(chat: CachedChat) -> (r: Self) {
        Chat {
            jid: Jid(chat.jid),
            name: chat.name,
            last_message: chat.last_message,
            last_activity: None,
            unread_count: chat.unread_count,
            is_pinned: chat.is_pinned,
        }
    }
}

impl vstd::std_specs::convert::FromSpecImpl<CachedChat> for Chat {
    open spec fn obeys_from_spec() -> bool {
        true
    }

    open spec fn from_spec(v: CachedChat) -> Chat {
        chat_from_cached(v)
    }
}

impl<'a> From<&'a ChatMessage> for CachedMessage {
    fn from(message: &'a ChatMessage) -> (r: Self) {
        CachedMessage {
            id: message.id.clone(),
            is_from_me: message.is_from_me,
            content: message.content.clone(),
            timestamp_unix: clock::unix_seconds(message.timestamp),
            status: CachedMessageStatus::from(message.status),
        }
    }
}

impl<'a> vstd::std_specs::convert::FromSpecImpl<&'a ChatMessage> for CachedMessage {
    open spec fn obeys_from_spec() -> bool {
        true
    }

    open spec fn from_spec(v: &'a ChatMessage) -> CachedMessage {
        message_to_cached(*v)
    }
}

/// Caching a chat and reading it back keeps everything but its activity
/// time, which the cache does not keep.
pub proof fn lemma_cached_chat_round_trip(c: Chat)
    ensures
        chat_from_cached(chat_to_cached(c)) == (Chat { last_activity: None, ..c }),
{
}

/// The time of a cached message: its seconds, when `chrono` represents
/// them, else `now`.
pub open spec fn cached_time(secs: i64, now: Timestamp) -> Timestamp {
    if chrono_accepts_seconds(secs) {
        (secs * 1_000_000_000) as i128
    } else {
        now
    }
}

/// The message of a cached message, read at `now`.
pub fn message_from_cache_at(message: CachedMessage, now: Timestamp) -> (r: ChatMessage)
    ensures
        r.id == message.id,
        r.is_from_me == message.is_from_me,
        r.content == message.content,
        r.timestamp == cached_time(message.timestamp_unix, now),
        r.status == status_from_cached(message.status),
{
    let timestamp = match clock::from_unix_seconds(message.timestamp_unix) {
        Some(t) => t,
        None => now,
    };
    ChatMessage {
        id: message.id,
        is_from_me: message.is_from_me,
        content: message.content,
        timestamp,
        status: MessageStatus::from(message.status),
    }
}

/// The chats of the cached chats, in order.
pub fn chats_from_cache(cached: Vec<CachedChat>) -> (r: Vec<Chat>)
    ensures
        r@ == cached@.map_values(|c: CachedChat| chat_from_cached(c)),
{
    let ghost all = cached@;
    let mut rest = cached;
    let mut out: Vec<Chat> = Vec::new();
    while rest.len() > 0
        invariant
            out@.len() + rest@.len() == all.len(),
            rest@ == all.skip(out@.len() as int),
            out@ == all.take(out@.len() as int).map_values(|c: CachedChat| chat_from_cached(c)),
        decreases rest@.len(),
    {
        let ghost k = out@.len() as int;
        let c = rest.remove(0);
        assert(c == all[k]);
        out.push(Chat::from(c));
        assert(all.take(k + 1).map_values(|c: CachedChat| chat_from_cached(c)) =~= all.take(k).map_values(
            |c: CachedChat| chat_from_cached(c),
        ).push(chat_from_cached(all[k])));
        assert(rest@ =~= all.skip(k + 1));
    }
    assert(all.take(all.len() as int) =~= all);
    out
}

/// The cached forms of the chats, in order.
pub fn chats_to_cache(chats: &[Chat]) -> (r: Vec<CachedChat>)
    ensures
        r@ == chats@.map_values(|c: Chat| chat_to_cached(c)),
{
    let mut out: Vec<CachedChat> = Vec::new();
    let mut i: usize = 0;
    while i < chats.len()
        invariant
            0 <= i <= chats@.len(),
            out@ == chats@.take(i as int).map_values(|c: Chat| chat_to_cached(c)),
        decreases chats@.len() - i,
    {
        out.push(CachedChat::from(&chats[i]));
        assert(chats@.take(i + 1).map_values(|c: Chat| chat_to_cached(c)) =~= chats@.take(i as int).map_values(
            |c: Chat| chat_to_cached(c),
        ).push(chat_to_cached(chats@[i as int])));
        i = i + 1;
    }
    assert(chats@.take(chats@.len() as int) =~= chats@);
    out
}

/// The messages of cached messages read at `now`, in order.
fn messages_from_cached_list(cached: Vec<CachedMessage>, now: Timestamp) -> (r: Vec<ChatMessage>)
    ensures
        r@.len() == cached@.len(),
        forall|i: int|
            0 <= i < cached@.len() ==> #[trigger] r@[i] == (ChatMessage {
                id: cached@[i].id,
                is_from_me: cached@[i].is_from_me,
                content: cached@[i].content,
                timestamp: cached_time(cached@[i].timestamp_unix, now),
                status: status_from_cached(cached@[i].status),
            }),
{
    let ghost all = cached@;
    let mut rest = cached;
    let mut out: Vec<ChatMessage> = Vec::new();
    while rest.len() > 0
        invariant
            out@.len() + rest@.len() == all.len(),
            rest@ == all.skip(out@.len() as int),
            forall|i: int|
                0 <= i < out@.len() ==> #[trigger] out@[i] == (ChatMessage {
                    id: all[i].id,
                    is_from_me: all[i].is_from_me,
                    content: all[i].content,
                    timestamp: cached_time(all[i].timestamp_unix, now),
                    status: status_from_cached(all[i].status),
                }),
        decreases rest@.len(),
    {
        let ghost k = out@.len() as int;
        let m = rest.remove(0);
        assert(m == all[k]);
        out.push(message_from_cache_at(m, now));
        assert(rest@ =~= all.skip(k + 1));
    }
    out
}

/// The message read back from its cached form; its time is `now` when
/// `chrono` does not represent the cached second.
pub open spec fn message_from_cached(c: CachedMessage, now: Timestamp) -> ChatMessage {
    ChatMessage {
        id: c.id,
        is_from_me: c.is_from_me,
        content: c.content,
        timestamp: cached_time(c.timestamp_unix, now),
        status: status_from_cached(c.status),
    }
}

/// The cached messages read back at `now`, in the order cached.
pub open spec fn messages_read(cached: Seq<CachedMessage>, now: Timestamp) -> Seq<ChatMessage> {
    cached.map_values(|c: CachedMessage| message_from_cached(c, now))
}

/// The cached forms of messages, in the order given.
pub open spec fn messages_cached(messages: Seq<ChatMessage>) -> Seq<CachedMessage> {
    messages.map_values(|m: ChatMessage| message_to_cached(m))
}

/// The messages of a chat's cached messages read at `now`, in time order,
/// messages with equal times in the order cached.
pub fn chat_messages_from_cache_at(cached: Vec<CachedMessage>, now: Timestamp) -> (r: Vec<ChatMessage>)
    ensures
        r@ == stable_sort(messages_read(cached@, now)),
{
    let ghost all = cached@;
    let read = messages_from_cached_list(cached, now);
    assert(read@ =~= messages_read(all, now));
    let ghost g = read@;
    let r = sort_stably(read);
    assert(stable_sort(g) == r@);
    r
}

/// The cached forms of a chat's messages, in time order (by whole seconds),
/// messages with equal times in the order given.
pub fn chat_messages_to_cache(messages: &[ChatMessage]) -> (r: Vec<CachedMessage>)
    ensures
        r@ == stable_sort(messages_cached(messages@)),
{
    let mut out: Vec<CachedMessage> = Vec::new();
    let mut i: usize = 0;
    while i < messages.len()
        invariant
            0 <= i <= messages@.len(),
            out@ == messages_cached(messages@.take(i as int)),
        decreases messages@.len() - i,
    {
        out.push(CachedMessage::from(&messages[i]));
        assert(messages_cached(messages@.take(i + 1)) =~= messages_cached(messages@.take(i as int)).push(
            message_to_cached(messages@[i as int]),
        ));
        i = i + 1;
    }
    assert(messages@.take(messages@.len() as int) =~= messages@);
    sort_stably(out)
}

/// Caching a message and reading it back keeps its id, direction, content
/// and status; its time comes back cut to the whole second, when `chrono`
/// represents that second.
pub proof fn lemma_cached_message_round_trip(m: ChatMessage, now: Timestamp)
    requires
        chrono_accepts_seconds(unix_seconds_of(m.timestamp as int) as i64),
    ensures
        ({
            let c = message_to_cached(m);
            &&& c.id == m.id
            &&& c.is_from_me == m.is_from_me
            &&& c.content == m.content
            &&& status_from_cached(c.status) == m.status
            &&& cached_time(c.timestamp_unix, now) == unix_seconds_of(m.timestamp as int) * 1_000_000_000
        }),
{
}

/// `f` orders `x` and `y` as they are ordered.
pub open spec fn keeps_order<A: SortKey, B: SortKey>(f: spec_fn(A) -> B, x: A, y: A) -> bool {
    (f(x).order_key() <= f(y).order_key()) == (x.order_key() <= y.order_key())
}

/// An ordered list is left as it is by stable sorting.
proof fn lemma_stable_sort_sorted<T: SortKey>(s: Seq<T>)
    requires
        in_key_order(s),
    ensures
        stable_sort(s) == s,
    decreases s.len(),
{
    if s.len() > 0 {
        let d = s.drop_last();
        assert(in_key_order(d)) by {
            assert forall|i: int, j: int| 0 <= i <= j < d.len() implies d[i].order_key() <= d[j].order_key() by {
                assert(d[i] == s[i] && d[j] == s[j]);
            }
        }
        lemma_stable_sort_sorted(d);
        let x = s.last();
        lemma_count_not_later(d, x.order_key());
        assert(count_not_later(d, x.order_key()) == d.len()) by {
            if count_not_later(d, x.order_key()) < d.len() {
                let k = count_not_later(d, x.order_key()) as int;
                assert(d[k] == s[k]);
                assert(s[k].order_key() <= s[s.len() - 1].order_key());
            }
        }
        assert(d.insert(d.len() as int, x) =~= s);
    }
}

/// Counting the values not later than `x` gives the same number after a
/// map that keeps the order of `x` with every value of `s`.
proof fn lemma_count_map<A: SortKey, B: SortKey>(s: Seq<A>, f: spec_fn(A) -> B, x: A)
    requires
        forall|y: A| s.contains(y) ==> #[trigger] keeps_order(f, y, x),
    ensures
        count_not_later(s.map_values(f), f(x).order_key()) == count_not_later(s, x.order_key()),
    decreases s.len(),
{
    if s.len() > 0 {
        let d = s.drop_last();
        assert forall|y: A| d.contains(y) implies #[trigger] keeps_order(f, y, x) by {
            let i = choose|i: int| 0 <= i < d.len() && d[i] == y;
            assert(s[i] == y);
            assert(s.contains(y));
        }
        lemma_count_map(d, f, x);
        assert(s.map_values(f).drop_last() =~= d.map_values(f));
        assert(s.contains(s.last()));
        assert(keeps_order(f, s.last(), x));
    }
}

/// Stable sorting commutes with a map that keeps the order of every two
/// values of the list.
proof fn lemma_sort_map<A: SortKey, B: SortKey>(v: Seq<A>, f: spec_fn(A) -> B)
    requires
        forall|x: A, y: A| v.contains(x) && v.contains(y) ==> #[trigger] keeps_order(f, x, y),
    ensures
        stable_sort(v.map_values(f)) == stable_sort(v).map_values(f),
    decreases v.len(),
{
    broadcast use vstd::seq_lib::group_to_multiset_ensures;
    if v.len() == 0 {
        assert(v.map_values(f) =~= Seq::<B>::empty());
        assert(stable_sort(v).map_values(f) =~= Seq::<B>::empty());
    } else {
        let d = v.drop_last();
        let x = v.last();
        assert forall|a: A, b: A| d.contains(a) && d.contains(b) implies #[trigger] keeps_order(f, a, b) by {
            let i = choose|i: int| 0 <= i < d.len() && d[i] == a;
            let j = choose|j: int| 0 <= j < d.len() && d[j] == b;
            assert(v[i] == a && v[j] == b);
            assert(v.contains(a) && v.contains(b));
        }
        lemma_sort_map(d, f);
        let s = stable_sort(d);
        lemma_stable_sort_orders(d);
        assert forall|y: A| s.contains(y) implies #[trigger] keeps_order(f, y, x) by {
            assert(s.to_multiset().count(y) > 0);
            assert(d.to_multiset().count(y) > 0);
            assert(d.contains(y));
            let i = choose|i: int| 0 <= i < d.len() && d[i] == y;
            assert(v[i] == y);
            assert(v.contains(y));
            assert(v.contains(x));
        }
        lemma_count_map(s, f, x);
        assert(v.map_values(f).drop_last() =~= d.map_values(f));
        let p = count_not_later(s, x.order_key()) as int;
        lemma_count_not_later(s, x.order_key());
        assert(s.map_values(f).insert(p, f(x)) =~= s.insert(p, x).map_values(f));
    }
}

/// A message whose time is a whole second that `chrono` represents, as the
/// cache keeps times.
pub open spec fn whole_second(m: ChatMessage) -> bool {
    &&& m.timestamp % 1_000_000_000 == 0
    &&& clock::chrono_min_seconds() * 1_000_000_000 <= m.timestamp <= clock::chrono_max_seconds() * 1_000_000_000
}

/// The cached second of a message at a whole second is its time in seconds.
proof fn lemma_whole_second(m: ChatMessage)
    requires
        whole_second(m),
    ensures
        unix_seconds_of(m.timestamp as int) * 1_000_000_000 == m.timestamp,
        chrono_accepts_seconds(unix_seconds_of(m.timestamp as int) as i64),
        message_to_cached(m).timestamp_unix == unix_seconds_of(m.timestamp as int),
{
    let t = m.timestamp as int;
    let s = t / 1_000_000_000;
    assert(s * 1_000_000_000 == t) by (nonlinear_arith)
        requires
            t % 1_000_000_000 == 0,
            s == t / 1_000_000_000,
    ;
    assert(clock::chrono_min_seconds() <= s <= clock::chrono_max_seconds()) by (nonlinear_arith)
        requires
            s * 1_000_000_000 == t,
            clock::chrono_min_seconds() * 1_000_000_000 <= t <= clock::chrono_max_seconds() * 1_000_000_000,
    ;
}

/// Reading back a message cached at a whole second gives the message.
proof fn lemma_message_cache_read_back(m: ChatMessage, now: Timestamp)
    requires
        whole_second(m),
    ensures
        message_from_cached(message_to_cached(m), now) == m,
{
    lemma_whole_second(m);
    lemma_cached_message_round_trip(m, now);
    lemma_cached_status_round_trip(m.status);
}

/// Saving a chat's messages to the cache and loading them back gives the
/// messages in stable time order, field by field, when every time is a
/// whole second that `chrono` represents.
pub proof fn lemma_message_cache_round_trip(messages: Seq<ChatMessage>, now: Timestamp)
    requires
        forall|i: int| 0 <= i < messages.len() ==> whole_second(#[trigger] messages[i]),
    ensures
        stable_sort(messages_read(stable_sort(messages_cached(messages)), now)) == stable_sort(messages),
{
    broadcast use vstd::seq_lib::group_to_multiset_ensures;
    let f = |m: ChatMessage| message_to_cached(m);
    let g = |c: CachedMessage| message_from_cached(c, now);
    assert forall|x: ChatMessage, y: ChatMessage| messages.contains(x) && messages.contains(y) implies #[trigger] keeps_order(
        f,
        x,
        y,
    ) by {
        let i = choose|i: int| 0 <= i < messages.len() && messages[i] == x;
        let j = choose|j: int| 0 <= j < messages.len() && messages[j] == y;
        assert(whole_second(messages[i]) && whole_second(messages[j]));
        lemma_whole_second(x);
        lemma_whole_second(y);
        let sx = unix_seconds_of(x.timestamp as int);
        let sy = unix_seconds_of(y.timestamp as int);
        assert((sx <= sy) == (sx * 1_000_000_000 <= sy * 1_000_000_000)) by (nonlinear_arith);
    }
    assert(messages_cached(messages) == messages.map_values(f));
    lemma_sort_map(messages, f);
    let s = stable_sort(messages);
    lemma_stable_sort_orders(messages);
    assert(stable_sort(messages_cached(messages)) == s.map_values(f));
    assert(messages_read(s.map_values(f), now) =~= s) by {
        assert forall|k: int| 0 <= k < s.len() implies #[trigger] messages_read(s.map_values(f), now)[k] == s[k] by {
            assert(s.contains(s[k]));
            assert(s.to_multiset().count(s[k]) > 0);
            assert(messages.contains(s[k]));
            let i = choose|i: int| 0 <= i < messages.len() && messages[i] == s[k];
            assert(whole_second(messages[i]));
            lemma_message_cache_read_back(s[k], now);
        }
    }
    lemma_stable_sort_sorted(s);
}

} // verus!
