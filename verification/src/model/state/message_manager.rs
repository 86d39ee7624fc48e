//! Messages per chat: ordered by time, without repeated ids.

use vstd::prelude::*;
use crate::clock::{self, Timestamp};
use crate::keyed::{has_key, key_pos, lemma_key_pos_unique, lemma_map_vals, lookup, map_vals, removed, StrMap};
use crate::model::chat::status_from_rpc;
use crate::rpc::types::preview_of;
use crate::text::{chars_of, contains_chars, contains_seq, lowercase, to_lowercase};
use crate::model::chat::{pending_id, pending_id_at, ChatMessage, MessageStatus};
use crate::rpc::{self, Jid};

verus! {

/// Some message of `s` has id `id`.
pub open spec fn has_id(s: Seq<ChatMessage>, id: Seq<char>) -> bool {
    exists|i: int| 0 <= i < s.len() && #[trigger] s[i].id@ == id
}

/// The messages of `s` are in non-decreasing time order.
pub open spec fn sorted_by_time(s: Seq<ChatMessage>) -> bool {
    forall|i: int, j: int| 0 <= i <= j < s.len() ==> s[i].timestamp <= s[j].timestamp
}

/// No two messages of `s` share an id.
pub open spec fn ids_distinct(s: Seq<ChatMessage>) -> bool {
    forall|i: int, j: int| 0 <= i < s.len() && 0 <= j < s.len() && i != j ==> s[i].id@ != s[j].id@
}

/// `new` is `old` with `msg` placed by its time: appended when it is not
/// older than the last message, otherwise inserted after the messages that
/// are not later and before those that are (when `old` is in time order),
/// or at some position (when it is not).
pub open spec fn placed(old: Seq<ChatMessage>, msg: ChatMessage, new: Seq<ChatMessage>) -> bool {
    if old.len() == 0 || old.last().timestamp <= msg.timestamp {
        new == old.push(msg)
    } else {
        exists|i: int|
            0 <= i <= old.len() && new == old.insert(i, msg) && (sorted_by_time(old) ==> (forall|j: int|
                0 <= j < i ==> #[trigger] old[j].timestamp <= msg.timestamp) && (forall|j: int|
                i <= j < old.len() ==> #[trigger] old[j].timestamp > msg.timestamp))
    }
}

/// Placing a message keeps a time-ordered list in time order.
pub proof fn lemma_placed_sorted(old: Seq<ChatMessage>, msg: ChatMessage, new: Seq<ChatMessage>)
    requires
        sorted_by_time(old),
        placed(old, msg, new),
    ensures
        sorted_by_time(new),
{
    if old.len() == 0 || old.last().timestamp <= msg.timestamp {
        assert forall|a: int, b: int| 0 <= a <= b < new.len() implies new[a].timestamp <= new[b].timestamp by {
            if b == old.len() {
                if a < old.len() {
                    assert(old[a].timestamp <= old[old.len() - 1].timestamp);
                }
            }
        }
    } else {
        let i = choose|i: int|
            0 <= i <= old.len() && new == old.insert(i, msg) && (sorted_by_time(old) ==> (forall|j: int|
                0 <= j < i ==> #[trigger] old[j].timestamp <= msg.timestamp) && (forall|j: int|
                i <= j < old.len() ==> #[trigger] old[j].timestamp > msg.timestamp));
        assert forall|a: int, b: int| 0 <= a <= b < new.len() implies new[a].timestamp <= new[b].timestamp by {
            let oa = if a < i { a } else { a - 1 };
            let ob = if b < i { b } else { b - 1 };
            if a < i {
                assert(new[a] == old[a]);
            } else if a > i {
                assert(new[a] == old[a - 1]);
            }
            if b < i {
                assert(new[b] == old[b]);
            } else if b > i {
                assert(new[b] == old[b - 1]);
            }
        }
    }
}

/// Placing a message whose id is new keeps ids distinct.
pub proof fn lemma_placed_distinct(old: Seq<ChatMessage>, msg: ChatMessage, new: Seq<ChatMessage>)
    requires
        ids_distinct(old),
        !has_id(old, msg.id@),
        placed(old, msg, new),
    ensures
        ids_distinct(new),
        has_id(new, msg.id@),
{
    if old.len() == 0 || old.last().timestamp <= msg.timestamp {
        assert(new[old.len() as int] == msg);
        assert forall|a: int, b: int| 0 <= a < new.len() && 0 <= b < new.len() && a != b implies new[a].id@
            != new[b].id@ by {
            if a < old.len() && b < old.len() {
            } else if a < old.len() {
                assert(old[a].id@ != msg.id@);
            } else {
                assert(old[b].id@ != msg.id@);
            }
        }
    } else {
        let i = choose|i: int|
            0 <= i <= old.len() && new == old.insert(i, msg) && (sorted_by_time(old) ==> (forall|j: int|
                0 <= j < i ==> #[trigger] old[j].timestamp <= msg.timestamp) && (forall|j: int|
                i <= j < old.len() ==> #[trigger] old[j].timestamp > msg.timestamp));
        assert(new[i] == msg);
        assert forall|a: int, b: int| 0 <= a < new.len() && 0 <= b < new.len() && a != b implies new[a].id@
            != new[b].id@ by {
            if a != i && b != i {
                let oa = if a < i { a } else { a - 1 };
                let ob = if b < i { b } else { b - 1 };
                assert(new[a] == old[oa]);
                assert(new[b] == old[ob]);
            } else if a == i {
                let ob = if b < i { b } else { b - 1 };
                assert(new[b] == old[ob]);
            } else {
                let oa = if a < i { a } else { a - 1 };
                assert(new[a] == old[oa]);
            }
        }
    }
}

/// The position of the first message with id `id` (the length when there is none).
pub open spec fn first_with_id(s: Seq<ChatMessage>, id: Seq<char>) -> int {
    if has_id(s, id) {
        choose|i: int|
            0 <= i < s.len() && s[i].id@ == id && forall|j: int| 0 <= j < i ==> #[trigger] s[j].id@ != id
    } else {
        s.len() as int
    }
}

/// The position of the first message of `list` with id `id`.
pub fn position_of_id(list: &Vec<ChatMessage>, id: &str) -> (r: Option<usize>)
    ensures
        r is None <==> !has_id(list@, id@),
        r matches Some(i) ==> i < list@.len() && i == first_with_id(list@, id@),
{
    let mut i: usize = 0;
    while i < list.len()
        invariant
            0 <= i <= list@.len(),
            forall|j: int| 0 <= j < i ==> #[trigger] list@[j].id@ != id@,
        decreases list@.len() - i,
    {
        if crate::text::str_eq(list[i].id.as_str(), id) {
            proof {
                let s = list@;
                assert(has_id(s, id@));
                let c = choose|c: int|
                    0 <= c < s.len() && s[c].id@ == id@ && forall|j: int| 0 <= j < c ==> #[trigger] s[j].id@ != id@;
                assert(c == i) by {
                    if c < i {
                        assert(s[c].id@ != id@);
                    }
                    if c > i {
                        assert(s[i as int].id@ != id@);
                    }
                }
            }
            return Some(i);
        }
        i = i + 1;
    }
    None
}

/// Whether some message of `list` has the id of `msg`.
fn contains_id(list: &Vec<ChatMessage>, id: &String) -> (r: bool)
    ensures
        r == has_id(list@, id@),
{
    position_of_id(list, id.as_str()).is_some()
}

/// The number of leading messages of a time-ordered list that are not
/// later than `t`: the position after which a message at `t` goes.
fn upper_bound(list: &Vec<ChatMessage>, t: Timestamp) -> (r: usize)
    ensures
        r <= list@.len(),
        sorted_by_time(list@) ==> (forall|j: int| 0 <= j < r ==> #[trigger] list@[j].timestamp <= t) && (
        forall|j: int| r <= j < list@.len() ==> #[trigger] list@[j].timestamp > t),
{
    let mut lo: usize = 0;
    let mut hi: usize = list.len();
    while lo < hi
        invariant
            0 <= lo <= hi <= list@.len(),
            sorted_by_time(list@) ==> (forall|j: int| 0 <= j < lo ==> #[trigger] list@[j].timestamp <= t) && (
            forall|j: int| hi <= j < list@.len() ==> #[trigger] list@[j].timestamp > t),
        decreases hi - lo,
    {
        let mid = lo + (hi - lo) / 2;
        if list[mid].timestamp <= t {
            proof {
                if sorted_by_time(list@) {
                    assert forall|j: int| 0 <= j < mid + 1 implies #[trigger] list@[j].timestamp <= t by {
                        assert(list@[j].timestamp <= list@[mid as int].timestamp);
                    }
                }
            }
            lo = mid + 1;
        } else {
            proof {
                if sorted_by_time(list@) {
                    assert forall|j: int| mid <= j < list@.len() implies #[trigger] list@[j].timestamp > t by {
                        assert(list@[mid as int].timestamp <= list@[j].timestamp);
                    }
                }
            }
            hi = mid;
        }
    }
    lo
}

/// Adds `msg` to `list` by its time, unless a message with its id is
/// already there; tells whether it was added.
pub fn insert_by_time(list: &mut Vec<ChatMessage>, msg: ChatMessage) -> (r: bool)
    ensures
        r == !has_id(old(list)@, msg.id@),
        !r ==> final(list)@ == old(list)@,
        r ==> placed(old(list)@, msg, final(list)@),
{
    if contains_id(list, &msg.id) {
        return false;
    }
    let n = list.len();
    if n == 0 || list[n - 1].timestamp <= msg.timestamp {
        list.push(msg);
    } else {
        let idx = upper_bound(list, msg.timestamp);
        let ghost old_list = list@;
        list.insert(idx, msg);
        assert(placed(old_list, msg, list@));
    }
    true
}

/// The message lists of a map from chat keys, viewed as sequences.
pub open spec fn timelines(m: StrMap<Vec<ChatMessage>>) -> Seq<(String, Seq<ChatMessage>)> {
    map_vals(m@, |v: Vec<ChatMessage>| v@)
}

/// The message list of chat `k`, if the chat has one.
pub open spec fn timeline_of(c: Seq<(String, Seq<ChatMessage>)>, k: Seq<char>) -> Option<Seq<ChatMessage>> {
    lookup(c, k)
}

/// `new` is `c` after adding `m` to the chat `key` by time (nothing changes
/// when the chat already has a message with its id).
pub open spec fn after_add(
    c: Seq<(String, Seq<ChatMessage>)>,
    key: String,
    m: ChatMessage,
    new: Seq<(String, Seq<ChatMessage>)>,
) -> bool {
    if has_key(c, key@) {
        let p = key_pos(c, key@);
        if has_id(c[p].1, m.id@) {
            new == c
        } else {
            exists|l: Seq<ChatMessage>| placed(c[p].1, m, l) && new == c.update(p, (c[p].0, l))
        }
    } else {
        new == c.push((key, seq![m]))
    }
}

/// Whether adding a message with id `id` to chat `k` of `c` adds it (it is not a repeat).
pub open spec fn adds_id(c: Seq<(String, Seq<ChatMessage>)>, k: Seq<char>, id: Seq<char>) -> bool {
    !(has_key(c, k) && has_id(c[key_pos(c, k)].1, id))
}

/// Whether adding `m` to chat `k` of `c` adds it (it is not a repeat).
pub open spec fn adds(c: Seq<(String, Seq<ChatMessage>)>, k: Seq<char>, m: ChatMessage) -> bool {
    adds_id(c, k, m.id@)
}

/// `c` after appending `m` to chat `key`, the chat being created when absent.
pub open spec fn appended(c: Seq<(String, Seq<ChatMessage>)>, key: String, m: ChatMessage) -> Seq<
    (String, Seq<ChatMessage>),
> {
    if has_key(c, key@) {
        let p = key_pos(c, key@);
        c.update(p, (c[p].0, c[p].1.push(m)))
    } else {
        c.push((key, seq![m]))
    }
}

/// The map view after replacing the list at position `i`.
proof fn lemma_timelines_update(m0: StrMap<Vec<ChatMessage>>, m1: StrMap<Vec<ChatMessage>>, i: int, l: Vec<ChatMessage>)
    requires
        0 <= i < m0@.len(),
        m1@ == m0@.update(i, (m0@[i].0, l)),
    ensures
        timelines(m1) == timelines(m0).update(i, (m0@[i].0, l@)),
{
    assert(timelines(m1) =~= timelines(m0).update(i, (m0@[i].0, l@)));
}

/// The timelines of a map agree position by position with its entries.
pub broadcast proof fn lemma_timelines_view(m: StrMap<Vec<ChatMessage>>, i: int)
    requires
        0 <= i < m@.len(),
    ensures
        #[trigger] timelines(m)[i] == (m@[i].0, m@[i].1@),
        timelines(m).len() == m@.len(),
{
}

/// Adds `msg` by time to the list of chat `key`, creating the list when the
/// chat has none; tells whether it was added (not a repeat).
pub fn add_to_timeline(map: &mut StrMap<Vec<ChatMessage>>, key: String, msg: ChatMessage) -> (r: bool)
    requires
        old(map).wf(),
    ensures
        final(map).wf(),
        r == adds(timelines(*old(map)), key@, msg),
        after_add(timelines(*old(map)), key, msg, timelines(*final(map))),
{
    let ghost c = timelines(*map);
    let ghost m0 = *map;
    proof {
        lemma_map_vals(map@, |v: Vec<ChatMessage>| v@, key@);
    }
    match map.find(key.as_str()) {
        Some(i) => {
            proof {
                lemma_key_pos_unique(m0@, i as int);
                assert(c[i as int].1 == m0@[i as int].1@);
            }
            let list = map.value_at_mut(i);
            let added = insert_by_time(list, msg);
            proof {
                lemma_timelines_update(m0, *map, i as int, *list);
                if added {
                    assert(placed(c[i as int].1, msg, list@));
                } else {
                    assert(timelines(*map) =~= c);
                }
            }
            added
        },
        None => {
            let mut list: Vec<ChatMessage> = Vec::new();
            list.push(msg);
            map.push_new(key, list);
            assert(timelines(*map) =~= c.push((key, seq![msg])));
            true
        },
    }
}

/// Appends `msg` to the list of chat `key`, creating the list when absent.
pub fn append_to_timeline(map: &mut StrMap<Vec<ChatMessage>>, key: String, msg: ChatMessage)
    requires
        old(map).wf(),
    ensures
        final(map).wf(),
        timelines(*final(map)) == appended(timelines(*old(map)), key, msg),
{
    let ghost c = timelines(*map);
    let ghost m0 = *map;
    proof {
        lemma_map_vals(map@, |v: Vec<ChatMessage>| v@, key@);
    }
    match map.find(key.as_str()) {
        Some(i) => {
            proof {
                lemma_key_pos_unique(m0@, i as int);
            }
            let list = map.value_at_mut(i);
            list.push(msg);
            proof {
                lemma_timelines_update(m0, *map, i as int, *list);
            }
        },
        None => {
            let mut list: Vec<ChatMessage> = Vec::new();
            list.push(msg);
            map.push_new(key, list);
            assert(timelines(*map) =~= c.push((key, seq![msg])));
        },
    }
}

/// `s` with the status of the message at `i` replaced.
pub open spec fn with_status(s: Seq<ChatMessage>, i: int, status: MessageStatus) -> Seq<ChatMessage> {
    s.update(
        i,
        ChatMessage {
            id: s[i].id,
            is_from_me: s[i].is_from_me,
            content: s[i].content,
            timestamp: s[i].timestamp,
            status,
        },
    )
}

/// Sets the status of the first message of `list` with id `id`; tells whether there was one.
pub fn set_status_in(list: &mut Vec<ChatMessage>, id: &str, status: MessageStatus) -> (r: bool)
    ensures
        r == has_id(old(list)@, id@),
        r ==> final(list)@ == with_status(old(list)@, first_with_id(old(list)@, id@), status),
        !r ==> final(list)@ == old(list)@,
{
    match position_of_id(list, id) {
        Some(i) => {
            let ghost l0 = list@;
            list[i].status = status;
            assert(list@ =~= with_status(l0, i as int, status));
            true
        },
        None => false,
    }
}

/// `s` with the message at `i` given a new id (of view `id`) and status `Sent`.
pub open spec fn resolved(s: Seq<ChatMessage>, i: int, new_s: Seq<ChatMessage>, id: Seq<char>) -> bool {
    &&& new_s.len() == s.len()
    &&& forall|j: int| 0 <= j < s.len() && j != i ==> #[trigger] new_s[j] == s[j]
    &&& new_s[i].id@ == id
    &&& new_s[i].is_from_me == s[i].is_from_me
    &&& new_s[i].content == s[i].content
    &&& new_s[i].timestamp == s[i].timestamp
    &&& new_s[i].status == MessageStatus::Sent
}

/// Gives the first message of `list` with id `local_id` the id `server_id`
/// and marks it sent; tells whether there was one.
pub fn resolve_in(list: &mut Vec<ChatMessage>, local_id: &str, server_id: &str) -> (r: bool)
    ensures
        r == has_id(old(list)@, local_id@),
        r ==> resolved(old(list)@, first_with_id(old(list)@, local_id@), final(list)@, server_id@),
        !r ==> final(list)@ == old(list)@,
{
    match position_of_id(list, local_id) {
        Some(i) => {
            list[i].id = server_id.to_string();
            list[i].status = MessageStatus::Sent;
            true
        },
        None => false,
    }
}

/// Position `i` holds a message of minimal time, and no earlier position does.
pub open spec fn is_first_oldest(s: Seq<ChatMessage>, i: int) -> bool {
    &&& 0 <= i < s.len()
    &&& forall|j: int| 0 <= j < s.len() ==> s[i].timestamp <= #[trigger] s[j].timestamp
    &&& forall|j: int| 0 <= j < i ==> #[trigger] s[j].timestamp > s[i].timestamp
}

/// The first position holding a message of minimal time (meaningful for non-empty `s`).
pub open spec fn oldest_pos(s: Seq<ChatMessage>) -> int {
    choose|i: int| is_first_oldest(s, i)
}

/// The position of the oldest message of a non-empty list (the first one among equals).
pub fn oldest_index(list: &Vec<ChatMessage>) -> (r: usize)
    requires
        list@.len() > 0,
    ensures
        r == oldest_pos(list@),
        r < list@.len(),
{
    let mut best: usize = 0;
    let mut i: usize = 1;
    while i < list.len()
        invariant
            list@.len() > 0,
            0 <= best < i <= list@.len(),
            forall|j: int| 0 <= j < i ==> list@[best as int].timestamp <= #[trigger] list@[j].timestamp,
            forall|j: int| 0 <= j < best ==> #[trigger] list@[j].timestamp > list@[best as int].timestamp,
        decreases list@.len() - i,
    {
        if list[i].timestamp < list[best].timestamp {
            best = i;
        }
        i = i + 1;
    }
    proof {
        let s = list@;
        let c = oldest_pos(s);
        assert(is_first_oldest(s, best as int));
        assert(c == best) by {
            if c < best {
                assert(s[c].timestamp > s[best as int].timestamp);
                assert(s[c].timestamp <= s[best as int].timestamp);
            }
            if c > best {
                assert(s[best as int].timestamp > s[c].timestamp);
                assert(s[best as int].timestamp <= s[c].timestamp);
            }
        }
    }
    best
}

/// The messages of `s` whose lower-case content contains `q`, in order.
pub open spec fn matching(s: Seq<ChatMessage>, q: Seq<char>) -> Seq<ChatMessage>
    decreases s.len(),
{
    if s.len() == 0 {
        Seq::empty()
    } else {
        let rest = matching(s.drop_last(), q);
        if contains_seq(lowercase(s.last().content@), q) {
            rest.push(s.last())
        } else {
            rest
        }
    }
}

/// Total number of messages over all chats.
pub open spec fn total_messages(c: Seq<(String, Seq<ChatMessage>)>) -> int
    decreases c.len(),
{
    if c.len() == 0 {
        0
    } else {
        total_messages(c.drop_last()) + c.last().1.len()
    }
}

proof fn lemma_total_messages_prefix(c: Seq<(String, Seq<ChatMessage>)>, n: int)
    requires
        0 <= n <= c.len(),
    ensures
        total_messages(c.take(n)) <= total_messages(c),
    decreases c.len() - n,
{
    if n < c.len() {
        lemma_total_messages_prefix(c, n + 1);
        assert(c.take(n + 1).drop_last() =~= c.take(n));
    } else {
        assert(c.take(n) =~= c);
    }
}

/// The first chat (in order) whose list has a message with id `id`
/// (the number of chats when none has).
pub open spec fn first_chat_with_id(c: Seq<(String, Seq<ChatMessage>)>, id: Seq<char>) -> int {
    if exists|k: int| 0 <= k < c.len() && has_id(#[trigger] c[k].1, id) {
        choose|k: int|
            0 <= k < c.len() && has_id(c[k].1, id) && forall|j: int| 0 <= j < k ==> !has_id(#[trigger] c[j].1, id)
    } else {
        c.len() as int
    }
}

/// Sets the status of the first message with id `id`, looking through the
/// chats in order; tells whether there was one.
pub fn set_status_anywhere(map: &mut StrMap<Vec<ChatMessage>>, id: &str, status: MessageStatus) -> (r: bool)
    requires
        old(map).wf(),
    ensures
        final(map).wf(),
        r == (first_chat_with_id(timelines(*old(map)), id@) < timelines(*old(map)).len()),
        r ==> ({
            let c = timelines(*old(map));
            let k = first_chat_with_id(c, id@);
            timelines(*final(map)) == c.update(k, (c[k].0, with_status(c[k].1, first_with_id(c[k].1, id@), status)))
        }),
        !r ==> timelines(*final(map)) == timelines(*old(map)),
{
    let ghost c = timelines(*map);
    let mut i: usize = 0;
    while i < map.len()
        invariant
            map.wf(),
            c == timelines(*map),
            c == timelines(*old(map)),
            c.len() == map@.len(),
            0 <= i <= c.len(),
            forall|j: int| 0 <= j < i ==> !has_id(#[trigger] c[j].1, id@),
        decreases c.len() - i,
    {
        let ghost m0 = *map;
        assert(c[i as int].1 == m0@[i as int].1@);
        let list = map.value_at_mut(i);
        if set_status_in(list, id, status) {
            proof {
                lemma_timelines_update(m0, *map, i as int, *list);
                assert(first_chat_with_id(c, id@) == i) by {
                    assert(has_id(c[i as int].1, id@));
                    let k = first_chat_with_id(c, id@);
                    if k < i {
                        assert(!has_id(c[k].1, id@));
                    }
                    if k > i {
                        assert(!has_id(c[i as int].1, id@));
                    }
                }
            }
            return true;
        }
        proof {
            lemma_timelines_update(m0, *map, i as int, *list);
            assert(timelines(*map) =~= c);
        }
        i = i + 1;
    }
    false
}

/// Sets the status of the first message with id `id` in chat `key`; tells whether there was one.
pub fn set_status_in_chat(map: &mut StrMap<Vec<ChatMessage>>, key: &str, id: &str, status: MessageStatus) -> (r: bool)
    requires
        old(map).wf(),
    ensures
        final(map).wf(),
        r == (match timeline_of(timelines(*old(map)), key@) {
            Some(l) => has_id(l, id@),
            None => false,
        }),
        r ==> ({
            let c = timelines(*old(map));
            let k = key_pos(c, key@);
            timelines(*final(map)) == c.update(k, (c[k].0, with_status(c[k].1, first_with_id(c[k].1, id@), status)))
        }),
        !r ==> timelines(*final(map)) == timelines(*old(map)),
{
    let ghost c = timelines(*map);
    let ghost m0 = *map;
    proof {
        lemma_map_vals(map@, |v: Vec<ChatMessage>| v@, key@);
    }
    match map.find(key) {
        Some(i) => {
            proof {
                lemma_key_pos_unique(m0@, i as int);
            }
            let list = map.value_at_mut(i);
            let done = set_status_in(list, id, status);
            proof {
                lemma_timelines_update(m0, *map, i as int, *list);
                if !done {
                    assert(timelines(*map) =~= c);
                }
            }
            done
        },
        None => false,
    }
}

/// Gives the first message with id `local_id` in chat `key` the id
/// `server_id` and marks it sent; tells whether there was one.
pub fn resolve_in_chat(map: &mut StrMap<Vec<ChatMessage>>, key: &str, local_id: &str, server_id: &str) -> (r: bool)
    requires
        old(map).wf(),
    ensures
        final(map).wf(),
        r == (match timeline_of(timelines(*old(map)), key@) {
            Some(l) => has_id(l, local_id@),
            None => false,
        }),
        r ==> ({
            let c = timelines(*old(map));
            let k = key_pos(c, key@);
            exists|l: Seq<ChatMessage>|
                resolved(c[k].1, first_with_id(c[k].1, local_id@), l, server_id@) && timelines(*final(map))
                    == c.update(k, (c[k].0, l))
        }),
        !r ==> timelines(*final(map)) == timelines(*old(map)),
{
    let ghost c = timelines(*map);
    let ghost m0 = *map;
    proof {
        lemma_map_vals(map@, |v: Vec<ChatMessage>| v@, key@);
    }
    match map.find(key) {
        Some(i) => {
            proof {
                lemma_key_pos_unique(m0@, i as int);
            }
            let list = map.value_at_mut(i);
            let done = resolve_in(list, local_id, server_id);
            proof {
                lemma_timelines_update(m0, *map, i as int, *list);
                if !done {
                    assert(timelines(*map) =~= c);
                }
            }
            done
        },
        None => false,
    }
}

/// Manages the messages of every chat.
#[derive(Debug)]
pub struct MessageManager {
    messages: StrMap<Vec<ChatMessage>>,
}

impl Default for MessageManager {
    fn default() -> (r: Self)
        ensures
            r.wf(),
            r.chats().len() == 0,
    {
        let r = MessageManager { messages: StrMap::new() };
        assert(r.chats() =~= Seq::empty());
        r
    }
}

impl MessageManager {
    /// The chats with their messages, in order.
    pub closed spec fn chats(&self) -> Seq<(String, Seq<ChatMessage>)> {
        timelines(self.messages)
    }

    /// Chat keys are distinct.
    pub closed spec fn wf(&self) -> bool {
        self.messages.wf()
    }

    /// The messages of the chat with key `k`, if it has a list.
    pub open spec fn messages_of(&self, k: Seq<char>) -> Option<Seq<ChatMessage>> {
        timeline_of(self.chats(), k)
    }

    /// The messages of a chat.
    pub fn get_messages(&self, chat_jid: &Jid) -> (r: Option<&[ChatMessage]>)
        requires
            self.wf(),
        ensures
            r is Some <==> self.messages_of(chat_jid.0@) is Some,
            r matches Some(l) ==> self.messages_of(chat_jid.0@) == Some(l@),
    {
        proof {
            lemma_map_vals(self.messages@, |v: Vec<ChatMessage>| v@, chat_jid.0@);
        }
        match self.messages.get(chat_jid.0.as_str()) {
            Some(v) => Some(v.as_slice()),
            None => None,
        }
    }

    /// The message list of a chat, for changing it in place.
    pub fn get_messages_mut(&mut self, chat_jid: &Jid) -> (r: Option<&mut Vec<ChatMessage>>)
        requires
            old(self).wf(),
        ensures
            final(self).wf(),
            r is Some <==> old(self).messages_of(chat_jid.0@) is Some,
            r matches Some(l) ==> ({
                let c = old(self).chats();
                let p = key_pos(c, chat_jid.0@);
                l@ == c[p].1 && final(self).chats() == c.update(p, (c[p].0, final(l)@))
            }),
            r is None ==> final(self).chats() == old(self).chats(),
    {
        proof {
            lemma_map_vals(self.messages@, |v: Vec<ChatMessage>| v@, chat_jid.0@);
        }
        match self.messages.find(chat_jid.0.as_str()) {
            Some(i) => {
                proof {
                    lemma_key_pos_unique(self.messages@, i as int);
                    broadcast use lemma_timelines_view;
                }
                Some(self.messages.value_at_mut(i))
            },
            None => None,
        }
    }

    /// Adds a message reported by the service to its chat, in time order;
    /// a message whose id the chat already has is not added again.
    /// Gives the chat key and the stored message when it was added.
    pub fn add_rpc_message(&mut self, msg: rpc::ChatMessage) -> (r: Option<(String, ChatMessage)>)
        requires
            old(self).wf(),
        ensures
            final(self).wf(),
            exists|cm: ChatMessage|
                cm.id == msg.id && cm.is_from_me == msg.is_from_me && cm.content@ == preview_of(msg.content)
                    && cm.timestamp == msg.timestamp && cm.status == status_from_rpc(msg.status)
                    && after_add(old(self).chats(), msg.chat.0, cm, final(self).chats())
                    && adds(old(self).chats(), msg.chat.0@, cm) == (r is Some)
                    && (r matches Some(p) ==> p.0 == msg.chat.0 && p.1 == cm),
    {
        let ghost old_chats = self.chats();
        let ghost key = msg.chat.0;
        let chat_jid = msg.chat.0.clone();
        let chat_msg = ChatMessage::from_rpc(msg);
        let added = add_to_timeline(&mut self.messages, chat_jid.clone(), chat_msg.clone());
        assert(after_add(old_chats, key, chat_msg, self.chats()));
        assert(adds(old_chats, key@, chat_msg) == added);
        if added {
            Some((chat_jid, chat_msg))
        } else {
            None
        }
    }

    /// Adds an outgoing message created at `now` to the end of the chat's
    /// list, under a local `pending_` id; gives the id and the message.
    pub fn add_pending_message_at(&mut self, chat_jid: &Jid, content: String, now: Timestamp) -> (r: (String, ChatMessage))
        requires
            old(self).wf(),
        ensures
            final(self).wf(),
            r.0@ == pending_id(now as int),
            r.1.id == r.0,
            r.1.is_from_me,
            r.1.content == content,
            r.1.timestamp == now,
            r.1.status == MessageStatus::Pending,
            final(self).chats() == appended(old(self).chats(), chat_jid.0, r.1),
    {
        let local_id = pending_id_at(now);
        let msg = ChatMessage::new_outgoing_with_id_at(local_id.clone(), content, now);
        append_to_timeline(&mut self.messages, chat_jid.0.clone(), msg.clone());
        (local_id, msg)
    }

    /// Adds an outgoing message created now.
    pub fn add_pending_message(&mut self, chat_jid: &Jid, content: String) -> (r: (String, ChatMessage))
        requires
            old(self).wf(),
        ensures
            final(self).wf(),
            r.0@ == pending_id(r.1.timestamp as int),
            r.1.id == r.0,
            r.1.is_from_me,
            r.1.content == content,
            r.1.status == MessageStatus::Pending,
            final(self).chats() == appended(old(self).chats(), chat_jid.0, r.1),
    {
        let now = clock::now();
        self.add_pending_message_at(chat_jid, content, now)
    }

    /// Sets the status of the first message with id `message_id`, looking
    /// through the chats in order; tells whether there was one.
    pub fn update_message_status(&mut self, message_id: &str, status: MessageStatus) -> (r: bool)
        requires
            old(self).wf(),
        ensures
            final(self).wf(),
            r == (first_chat_with_id(old(self).chats(), message_id@) < old(self).chats().len()),
            r ==> ({
                let c = old(self).chats();
                let k = first_chat_with_id(c, message_id@);
                final(self).chats() == c.update(
                    k,
                    (c[k].0, with_status(c[k].1, first_with_id(c[k].1, message_id@), status)),
                )
            }),
            !r ==> final(self).chats() == old(self).chats(),
    {
        set_status_anywhere(&mut self.messages, message_id, status)
    }

    /// Sets the status of the first message with id `message_id` in one chat;
    /// tells whether there was one.
    pub fn update_specific_message_status(&mut self, chat_jid: &Jid, message_id: &str, status: MessageStatus) -> (r: bool)
        requires
            old(self).wf(),
        ensures
            final(self).wf(),
            r == (match old(self).messages_of(chat_jid.0@) {
                Some(l) => has_id(l, message_id@),
                None => false,
            }),
            r ==> ({
                let c = old(self).chats();
                let k = key_pos(c, chat_jid.0@);
                final(self).chats() == c.update(
                    k,
                    (c[k].0, with_status(c[k].1, first_with_id(c[k].1, message_id@), status)),
                )
            }),
            !r ==> final(self).chats() == old(self).chats(),
    {
        set_status_in_chat(&mut self.messages, chat_jid.0.as_str(), message_id, status)
    }

    /// Gives the pending message `local_id` of the chat its server id and
    /// marks it sent; tells whether there was such a message.
    pub fn resolve_pending_message_id(&mut self, chat_jid: &Jid, local_id: &str, server_id: &str) -> (r: bool)
        requires
            old(self).wf(),
        ensures
            final(self).wf(),
            r == (match old(self).messages_of(chat_jid.0@) {
                Some(l) => has_id(l, local_id@),
                None => false,
            }),
            r ==> ({
                let c = old(self).chats();
                let k = key_pos(c, chat_jid.0@);
                exists|l: Seq<ChatMessage>|
                    resolved(c[k].1, first_with_id(c[k].1, local_id@), l, server_id@) && final(self).chats()
                        == c.update(k, (c[k].0, l))
            }),
            !r ==> final(self).chats() == old(self).chats(),
    {
        resolve_in_chat(&mut self.messages, chat_jid.0.as_str(), local_id, server_id)
    }

    /// The oldest message of the chat (the first among equally old ones), as
    /// the cursor for fetching older history: its id, whether it is ours,
    /// and its time in milliseconds.
    pub fn get_oldest_cursor(&self, chat_jid: &Jid) -> (r: Option<(String, bool, i64)>)
        requires
            self.wf(),
        ensures
            r is Some <==> (self.messages_of(chat_jid.0@) matches Some(l) && l.len() > 0),
            r matches Some(t) ==> ({
                let l = self.messages_of(chat_jid.0@)->0;
                let m = l[oldest_pos(l)];
                t.0 == m.id && t.1 == m.is_from_me && t.2 == clock::millis_of(m.timestamp as int)
            }),
    {
        proof {
            lemma_map_vals(self.messages@, |v: Vec<ChatMessage>| v@, chat_jid.0@);
        }
        let list = match self.messages.get(chat_jid.0.as_str()) {
            Some(l) => l,
            None => return None,
        };
        if list.len() == 0 {
            return None;
        }
        let i = oldest_index(list);
        let m = &list[i];
        Some((m.id.clone(), m.is_from_me, clock::millis(m.timestamp)))
    }

    /// The time of the newest message of the chat.
    pub fn get_newest_timestamp(&self, chat_jid: &Jid) -> (r: Option<Timestamp>)
        requires
            self.wf(),
        ensures
            r is Some <==> (self.messages_of(chat_jid.0@) matches Some(l) && l.len() > 0),
            r matches Some(t) ==> ({
                let l = self.messages_of(chat_jid.0@)->0;
                (exists|i: int| 0 <= i < l.len() && #[trigger] l[i].timestamp == t) && forall|i: int|
                    0 <= i < l.len() ==> #[trigger] l[i].timestamp <= t
            }),
    {
        proof {
            lemma_map_vals(self.messages@, |v: Vec<ChatMessage>| v@, chat_jid.0@);
        }
        let list = match self.messages.get(chat_jid.0.as_str()) {
            Some(l) => l,
            None => return None,
        };
        if list.len() == 0 {
            return None;
        }
        let mut best: Timestamp = list[0].timestamp;
        let mut i: usize = 1;
        while i < list.len()
            invariant
                list@.len() > 0,
                1 <= i <= list@.len(),
                exists|j: int| 0 <= j < i && #[trigger] list@[j].timestamp == best,
                forall|j: int| 0 <= j < i ==> #[trigger] list@[j].timestamp <= best,
            decreases list@.len() - i,
        {
            if list[i].timestamp > best {
                best = list[i].timestamp;
            }
            i = i + 1;
        }
        Some(best)
    }

    /// Whether the chat has a message with the given id.
    pub fn has_message(&self, chat_jid: &Jid, message_id: &str) -> (r: bool)
        requires
            self.wf(),
        ensures
            r == (match self.messages_of(chat_jid.0@) {
                Some(l) => has_id(l, message_id@),
                None => false,
            }),
    {
        proof {
            lemma_map_vals(self.messages@, |v: Vec<ChatMessage>| v@, chat_jid.0@);
        }
        match self.messages.get(chat_jid.0.as_str()) {
            Some(l) => position_of_id(l, message_id).is_some(),
            None => false,
        }
    }

    /// The number of messages of the chat.
    pub fn message_count(&self, chat_jid: &Jid) -> (r: usize)
        requires
            self.wf(),
        ensures
            r == (match self.messages_of(chat_jid.0@) {
                Some(l) => l.len(),
                None => 0,
            }),
    {
        proof {
            lemma_map_vals(self.messages@, |v: Vec<ChatMessage>| v@, chat_jid.0@);
        }
        match self.messages.get(chat_jid.0.as_str()) {
            Some(l) => l.len(),
            None => 0,
        }
    }

    /// The number of messages over all chats.
    pub fn total_message_count(&self) -> (r: usize)
        requires
            total_messages(self.chats()) <= usize::MAX,
        ensures
            r == total_messages(self.chats()),
    {
        let ghost c = self.chats();
        let mut total: usize = 0;
        let mut i: usize = 0;
        while i < self.messages.len()
            invariant
                c == self.chats(),
                c.len() == self.messages@.len(),
                total_messages(c) <= usize::MAX,
                0 <= i <= c.len(),
                total == total_messages(c.take(i as int)),
            decreases c.len() - i,
        {
            assert(c.take(i + 1).drop_last() =~= c.take(i as int));
            assert(c[i as int].1 == self.messages@[i as int].1@);
            proof {
                lemma_total_messages_prefix(c, i as int + 1);
            }
            total = total + self.messages.value_at(i).len();
            i = i + 1;
        }
        assert(c.take(c.len() as int) =~= c);
        total
    }

    /// Removes every message of every chat.
    pub fn clear(&mut self)
        ensures
            final(self).wf(),
            final(self).chats().len() == 0,
    {
        self.messages.clear();
        assert(self.chats() =~= Seq::empty());
    }

    /// Removes the messages of one chat.
    pub fn clear_chat(&mut self, chat_jid: &Jid)
        requires
            old(self).wf(),
        ensures
            final(self).wf(),
            final(self).chats() == removed(old(self).chats(), chat_jid.0@),
    {
        let ghost c = self.chats();
        let ghost m0 = self.messages@;
        proof {
            lemma_map_vals(self.messages@, |v: Vec<ChatMessage>| v@, chat_jid.0@);
        }
        let _ = self.messages.remove(chat_jid.0.as_str());
        proof {
            if has_key(m0, chat_jid.0@) {
                let p = key_pos(m0, chat_jid.0@);
                assert(self.chats() =~= c.remove(p));
            } else {
                assert(self.chats() =~= c);
            }
        }
    }

    /// The ids of the messages of the chat, in order.
    pub fn get_message_ids(&self, chat_jid: &Jid) -> (r: Vec<String>)
        requires
            self.wf(),
        ensures
            r@ == (match self.messages_of(chat_jid.0@) {
                Some(l) => l.map_values(|m: ChatMessage| m.id),
                None => Seq::empty(),
            }),
    {
        proof {
            lemma_map_vals(self.messages@, |v: Vec<ChatMessage>| v@, chat_jid.0@);
        }
        let list = match self.messages.get(chat_jid.0.as_str()) {
            Some(l) => l,
            None => return Vec::new(),
        };
        let mut out: Vec<String> = Vec::new();
        let mut i: usize = 0;
        while i < list.len()
            invariant
                0 <= i <= list@.len(),
                out@ == list@.map_values(|m: ChatMessage| m.id).take(i as int),
            decreases list@.len() - i,
        {
            out.push(list[i].id.clone());
            assert(out@ =~= list@.map_values(|m: ChatMessage| m.id).take(i + 1));
            i = i + 1;
        }
        assert(out@ =~= list@.map_values(|m: ChatMessage| m.id));
        out
    }

    /// The messages of the chat whose lower-case content contains the
    /// lower-case query, in order.
    pub fn search_messages(&self, chat_jid: &Jid, query: &str) -> (r: Vec<&ChatMessage>)
        requires
            self.wf(),
        ensures
            ({
                let found = match self.messages_of(chat_jid.0@) {
                    Some(l) => matching(l, lowercase(query@)),
                    None => Seq::empty(),
                };
                r@.len() == found.len() && forall|k: int| 0 <= k < found.len() ==> *r@[k] == found[k]
            }),
    {
        proof {
            lemma_map_vals(self.messages@, |v: Vec<ChatMessage>| v@, chat_jid.0@);
        }
        let q = to_lowercase(query);
        let qv = chars_of(q.as_str());
        let list = match self.messages.get(chat_jid.0.as_str()) {
            Some(l) => l,
            None => return Vec::new(),
        };
        let ghost s = list@;
        let mut out: Vec<&ChatMessage> = Vec::new();
        let mut i: usize = 0;
        while i < list.len()
            invariant
                s == list@,
                qv@ == lowercase(query@),
                0 <= i <= s.len(),
                out@.len() == matching(s.take(i as int), qv@).len(),
                forall|k: int| 0 <= k < out@.len() ==> *out@[k] == matching(s.take(i as int), qv@)[k],
            decreases s.len() - i,
        {
            assert(s.take(i + 1).drop_last() =~= s.take(i as int));
            let lower = to_lowercase(list[i].content.as_str());
            let lv = chars_of(lower.as_str());
            if contains_chars(lv.as_slice(), qv.as_slice()) {
                out.push(&list[i]);
            }
            i = i + 1;
        }
        assert(s.take(s.len() as int) =~= s);
        out
    }
}

} // verus!
