//! The chat list, its order and the selected chat.

use vstd::prelude::*;
use crate::clock::Timestamp;
use crate::keyed::{lookup, removed, stored, StrMap};
use crate::model::connection::{pairing_needed, ConnectionState, ViewState};
use crate::rpc::types::{group_marker, jid_normalized_user};
use crate::rpc::{self, Chat, Jid};
use crate::text::{chars_of, contains_chars, contains_seq, lowercase, to_lowercase, trim, trimmed};

verus! {

broadcast use vstd::seq_lib::group_to_multiset_ensures;

/// `a` is more recent than `b`; no activity counts as the oldest.
pub open spec fn more_recent(a: Option<Timestamp>, b: Option<Timestamp>) -> bool {
    match (a, b) {
        (Some(x), Some(y)) => x > y,
        (Some(_), None) => true,
        _ => false,
    }
}

/// `a` goes strictly before `b` in the chat list: pinned chats first, then
/// by most recent activity.
pub open spec fn strictly_before(a: Chat, b: Chat) -> bool {
    (a.is_pinned && !b.is_pinned) || (a.is_pinned == b.is_pinned && more_recent(a.last_activity, b.last_activity))
}

/// The chats are in list order: no chat goes strictly before an earlier one.
pub open spec fn in_list_order(s: Seq<Chat>) -> bool {
    forall|i: int, j: int| 0 <= i < j < s.len() ==> !strictly_before(#[trigger] s[j], #[trigger] s[i])
}

/// The first position at or after `from` whose chat `x` goes strictly
/// before (the length when there is none).
pub open spec fn insert_pos_from(s: Seq<Chat>, x: Chat, from: int) -> int
    decreases s.len() - from,
{
    if from < 0 || from >= s.len() {
        s.len() as int
    } else if strictly_before(x, s[from]) {
        from
    } else {
        insert_pos_from(s, x, from + 1)
    }
}

/// `x` inserted into `s` after every chat it does not go strictly before.
pub open spec fn insert_in_order(s: Seq<Chat>, x: Chat) -> Seq<Chat> {
    s.insert(insert_pos_from(s, x, 0), x)
}

/// The chats in list order, chats of equal rank keeping their relative order.
pub open spec fn sorted_chats(s: Seq<Chat>) -> Seq<Chat>
    decreases s.len(),
{
    if s.len() == 0 {
        s
    } else {
        insert_in_order(sorted_chats(s.drop_last()), s.last())
    }
}

proof fn lemma_insert_pos_bounds(s: Seq<Chat>, x: Chat, from: int)
    requires
        0 <= from <= s.len(),
    ensures
        from <= insert_pos_from(s, x, from) <= s.len(),
        forall|j: int| from <= j < insert_pos_from(s, x, from) ==> !strictly_before(x, #[trigger] s[j]),
        insert_pos_from(s, x, from) < s.len() ==> strictly_before(x, s[insert_pos_from(s, x, from)]),
    decreases s.len() - from,
{
    if from < s.len() && !strictly_before(x, s[from]) {
        lemma_insert_pos_bounds(s, x, from + 1);
    }
}

/// Inserting a chat into a list in order keeps it in order.
proof fn lemma_insert_in_order(s: Seq<Chat>, x: Chat)
    requires
        in_list_order(s),
    ensures
        in_list_order(insert_in_order(s, x)),
{
    let p = insert_pos_from(s, x, 0);
    lemma_insert_pos_bounds(s, x, 0);
    let t = insert_in_order(s, x);
    assert forall|i: int, j: int| 0 <= i < j < t.len() implies !strictly_before(#[trigger] t[j], #[trigger] t[i]) by {
        if i < p && j < p {
            assert(t[i] == s[i] && t[j] == s[j]);
        } else if i > p && j > p {
            assert(t[i] == s[i - 1] && t[j] == s[j - 1]);
        } else if i < p && j == p {
            assert(t[i] == s[i]);
            assert(!strictly_before(x, s[i]));
        } else if i < p && j > p {
            assert(t[i] == s[i] && t[j] == s[j - 1]);
        } else if i == p && j > p {
            // x goes strictly before s[p], which does not go after s[j-1]
            assert(t[j] == s[j - 1]);
            assert(strictly_before(x, s[p]));
            if j - 1 > p {
                assert(!strictly_before(s[j - 1], s[p]));
            }
        }
    }
}

/// Sorting puts the chats in list order.
pub proof fn lemma_sorted_chats_in_order(s: Seq<Chat>)
    ensures
        in_list_order(sorted_chats(s)),
    decreases s.len(),
{
    if s.len() > 0 {
        lemma_sorted_chats_in_order(s.drop_last());
        lemma_insert_in_order(sorted_chats(s.drop_last()), s.last());
    }
}

/// After sorting, pinned chats come before the others; among chats that
/// are both pinned or both not, a chat with activity comes before one
/// without, and a later activity before an earlier one.
pub proof fn lemma_chat_list_order(s: Seq<Chat>, i: int, j: int)
    requires
        0 <= i < j < sorted_chats(s).len(),
    ensures
        ({
            let r = sorted_chats(s);
            &&& r[j].is_pinned ==> r[i].is_pinned
            &&& (r[i].is_pinned == r[j].is_pinned && r[j].last_activity is Some) ==> r[i].last_activity is Some
            &&& (r[i].is_pinned == r[j].is_pinned && r[i].last_activity is Some && r[j].last_activity is Some)
                ==> r[i].last_activity->0 >= r[j].last_activity->0
        }),
{
    lemma_sorted_chats_in_order(s);
    let r = sorted_chats(s);
    assert(!strictly_before(r[j], r[i]));
}

/// Sorting only reorders the chats.
pub proof fn lemma_sorted_chats_permutation(s: Seq<Chat>)
    ensures
        sorted_chats(s).to_multiset() == s.to_multiset(),
        sorted_chats(s).len() == s.len(),
    decreases s.len(),
{
    if s.len() > 0 {
        lemma_sorted_chats_permutation(s.drop_last());
        let r = sorted_chats(s.drop_last());
        lemma_insert_pos_bounds(r, s.last(), 0);
        assert(s.drop_last().push(s.last()) =~= s);
    }
}

/// A list already in order is left as it is by sorting.
pub proof fn lemma_sorted_chats_idempotent(s: Seq<Chat>)
    requires
        in_list_order(s),
    ensures
        sorted_chats(s) == s,
    decreases s.len(),
{
    if s.len() > 0 {
        let d = s.drop_last();
        assert(in_list_order(d)) by {
            assert forall|i: int, j: int| 0 <= i < j < d.len() implies !strictly_before(#[trigger] d[j], #[trigger] d[i]) by {
                assert(d[i] == s[i] && d[j] == s[j]);
            }
        }
        lemma_sorted_chats_idempotent(d);
        let x = s.last();
        assert forall|j: int| 0 <= j < d.len() implies !strictly_before(x, #[trigger] d[j]) by {
            assert(d[j] == s[j]);
            assert(x == s[s.len() - 1]);
        }
        lemma_insert_pos_all(d, x, 0);
        assert(d.insert(d.len() as int, x) =~= s);
    }
}

proof fn lemma_insert_pos_all(s: Seq<Chat>, x: Chat, from: int)
    requires
        0 <= from <= s.len(),
        forall|j: int| 0 <= j < s.len() ==> !strictly_before(x, #[trigger] s[j]),
    ensures
        insert_pos_from(s, x, from) == s.len(),
    decreases s.len() - from,
{
    if from < s.len() {
        lemma_insert_pos_all(s, x, from + 1);
    }
}

/// Sorts a list of chats in place: pinned chats first, then by most recent
/// activity; chats of equal rank keep their relative order.
pub fn sort_chats(v: &mut Vec<Chat>)
    ensures
        final(v)@ == sorted_chats(old(v)@),
{
    let ghost orig = v@;
    let n = v.len();
    let mut i: usize = 0;
    while i < n
        invariant
            n == orig.len(),
            v@.len() == n,
            0 <= i <= n,
            v@.take(i as int) == sorted_chats(orig.take(i as int)),
            v@.skip(i as int) == orig.skip(i as int),
        decreases n - i,
    {
        let ghost before = v@;
        let x = v.remove(i);
        assert(x == orig[i as int]) by {
            assert(before.skip(i as int)[0] == orig.skip(i as int)[0]);
        }
        let ghost sorted_prefix = v@.take(i as int);
        assert(sorted_prefix =~= before.take(i as int));
        let k = insert_position(v, i, &x);
        let ghost after_remove = v@;
        v.insert(k, x);
        proof {
            assert(orig.take(i + 1).drop_last() =~= orig.take(i as int));
            assert(orig.take(i + 1).last() == orig[i as int]);
            assert(v@.take(i + 1) =~= sorted_prefix.insert(k as int, x));
            assert(orig.take(i + 1).len() > 0);
            assert(sorted_chats(orig.take(i + 1)) == insert_in_order(sorted_chats(orig.take(i as int)), x));
            assert(v@.skip(i + 1) =~= orig.skip(i + 1)) by {
                assert forall|t: int| 0 <= t < v@.skip(i + 1).len() implies #[trigger] v@.skip(i + 1)[t] == orig.skip(i + 1)[t] by {
                    assert(v@[i + 1 + t] == after_remove[i + t]);
                    assert(after_remove[i + t] == before[i + 1 + t]);
                    assert(before.skip(i as int)[1 + t] == orig.skip(i as int)[1 + t]);
                }
            }
        }
        i = i + 1;
    }
    assert(orig.take(n as int) =~= orig);
    assert(v@.take(n as int) =~= v@);
}

/// Where `x` goes among the first `len` chats of `v`.
fn insert_position(v: &Vec<Chat>, len: usize, x: &Chat) -> (k: usize)
    requires
        len <= v@.len(),
    ensures
        k == insert_pos_from(v@.take(len as int), *x, 0),
        k <= len,
{
    let ghost s = v@.take(len as int);
    let mut k: usize = 0;
    while k < len
        invariant
            0 <= k <= len,
            len <= v@.len(),
            s == v@.take(len as int),
            insert_pos_from(s, *x, 0) == insert_pos_from(s, *x, k as int),
        decreases len - k,
    {
        assert(s[k as int] == v@[k as int]);
        if strictly_before_exec(x, &v[k]) {
            return k;
        }
        k = k + 1;
    }
    k
}

/// Whether `a` goes strictly before `b` in the chat list.
fn strictly_before_exec(a: &Chat, b: &Chat) -> (r: bool)
    ensures
        r == strictly_before(*a, *b),
{
    if a.is_pinned && !b.is_pinned {
        return true;
    }
    if a.is_pinned != b.is_pinned {
        return false;
    }
    match (a.last_activity, b.last_activity) {
        (Some(x), Some(y)) => x > y,
        (Some(_), None) => true,
        _ => false,
    }
}

/// Some chat of `s` has JID `jid`.
pub open spec fn has_chat(s: Seq<Chat>, jid: Seq<char>) -> bool {
    exists|i: int| 0 <= i < s.len() && #[trigger] s[i].jid.0@ == jid
}

/// The position of the first chat with JID `jid` (the length when there is none).
pub open spec fn chat_pos(s: Seq<Chat>, jid: Seq<char>) -> int {
    if has_chat(s, jid) {
        choose|i: int|
            0 <= i < s.len() && s[i].jid.0@ == jid && forall|j: int| 0 <= j < i ==> #[trigger] s[j].jid.0@ != jid
    } else {
        s.len() as int
    }
}

/// The position of the first chat of `v` with JID `jid`.
pub fn find_chat(v: &Vec<Chat>, jid: &Jid) -> (r: Option<usize>)
    ensures
        r is None <==> !has_chat(v@, jid.0@),
        r matches Some(i) ==> i < v@.len() && i == chat_pos(v@, jid.0@),
{
    let mut i: usize = 0;
    while i < v.len()
        invariant
            0 <= i <= v@.len(),
            forall|j: int| 0 <= j < i ==> #[trigger] v@[j].jid.0@ != jid.0@,
        decreases v@.len() - i,
    {
        if v[i].jid == *jid {
            proof {
                let s = v@;
                assert(has_chat(s, jid.0@));
                let c = chat_pos(s, jid.0@);
                assert(c == i) by {
                    if c < i {
                        assert(s[c].jid.0@ != jid.0@);
                    }
                    if c > i {
                        assert(s[i as int].jid.0@ != jid.0@);
                    }
                }
            }
            return Some(i);
        }
        i = i + 1;
    }
    None
}

/// `c` with another name.
pub open spec fn renamed(c: Chat, name: String) -> Chat {
    Chat { name, ..c }
}

/// A contact-name update for `jid` applies to chat `c`: same JID or same
/// normalized user, and a different name.
pub open spec fn rename_applies(c: Chat, jid: Seq<char>, name: Seq<char>) -> bool {
    (c.jid.0@ == jid || jid_normalized_user(c.jid.0@) == jid_normalized_user(jid)) && c.name@ != name
}

/// The chat created for a preview of an unknown chat.
pub open spec fn preview_chat(jid: Jid, label: String, preview: String, timestamp: Timestamp) -> Chat {
    Chat {
        jid,
        name: label,
        last_message: Some(preview),
        last_activity: Some(timestamp),
        is_group: contains_seq(jid.0@, group_marker()),
        unread_count: 0,
        is_muted: false,
        is_pinned: false,
    }
}

/// The chats of `s` that satisfy `keep`, in order.
pub open spec fn chats_where(s: Seq<Chat>, keep: spec_fn(Chat) -> bool) -> Seq<Chat>
    decreases s.len(),
{
    if s.len() == 0 {
        Seq::empty()
    } else {
        let rest = chats_where(s.drop_last(), keep);
        if keep(s.last()) {
            rest.push(s.last())
        } else {
            rest
        }
    }
}

/// The sum of the unread counts.
pub open spec fn unread_total(s: Seq<Chat>) -> int
    decreases s.len(),
{
    if s.len() == 0 {
        0
    } else {
        unread_total(s.drop_last()) + s.last().unread_count
    }
}

proof fn lemma_unread_prefix(s: Seq<Chat>, n: int)
    requires
        0 <= n <= s.len(),
    ensures
        unread_total(s.take(n)) <= unread_total(s),
    decreases s.len() - n,
{
    if n < s.len() {
        lemma_unread_prefix(s, n + 1);
        assert(s.take(n + 1).drop_last() =~= s.take(n));
    } else {
        assert(s.take(n) =~= s);
    }
}

/// The chats can be shown unless the user has to pair.
pub open spec fn chats_view_allowed(connection: ConnectionState) -> bool {
    !pairing_needed(connection)
}

/// Manages the chat list and the selected chat.
#[derive(Debug)]
pub struct ChatManager {
    chats: Vec<Chat>,
    selected_chat: Option<Jid>,
    chat_preview_timestamps: StrMap<Timestamp>,
    pending_previews: StrMap<(String, Timestamp)>,
}

impl Default for ChatManager {
    fn default() -> (r: Self)
        ensures
            r.wf(),
            r.list().len() == 0,
            r.selection() is None,
            r.previews().len() == 0,
    {
        ChatManager {
            chats: Vec::new(),
            selected_chat: None,
            chat_preview_timestamps: StrMap::new(),
            pending_previews: StrMap::new(),
        }
    }
}

impl ChatManager {
    /// The chats, in list order.
    pub closed spec fn list(&self) -> Seq<Chat> {
        self.chats@
    }

    /// The selected chat's JID.
    pub closed spec fn selection(&self) -> Option<Jid> {
        self.selected_chat
    }

    /// Per chat key, the time of the preview shown.
    pub closed spec fn previews(&self) -> Seq<(String, Timestamp)> {
        self.chat_preview_timestamps@
    }

    /// Keys of the preview times are distinct.
    pub closed spec fn wf(&self) -> bool {
        self.chat_preview_timestamps.wf() && self.pending_previews.wf()
    }

    /// An empty chat manager.
    pub fn new() -> (r: Self)
        ensures
            r.wf(),
            r.list().len() == 0,
            r.selection() is None,
            r.previews().len() == 0,
    {
        Self::default()
    }

    /// All chats.
    pub fn chats(&self) -> (r: &[Chat])
        ensures
            r@ == self.list(),
    {
        self.chats.as_slice()
    }

    /// The chats, for changing them in place.
    pub fn chats_mut(&mut self) -> (r: &mut Vec<Chat>)
        ensures
            r@ == old(self).list(),
            final(self).list() == final(r)@,
            final(self).selection() == old(self).selection(),
            final(self).previews() == old(self).previews(),
            final(self).wf() == old(self).wf(),
    {
        &mut self.chats
    }

    /// The first chat with the given JID, for changing it in place.
    pub fn get_mut(&mut self, jid: &Jid) -> (r: Option<&mut Chat>)
        ensures
            r is Some <==> has_chat(old(self).list(), jid.0@),
            r matches Some(c) ==> *c == old(self).list()[chat_pos(old(self).list(), jid.0@)]
                && final(self).list() == old(self).list().update(chat_pos(old(self).list(), jid.0@), *final(c)),
            r is None ==> final(self).list() == old(self).list(),
            final(self).selection() == old(self).selection(),
            final(self).previews() == old(self).previews(),
            final(self).wf() == old(self).wf(),
    {
        match find_chat(&self.chats, jid) {
            Some(i) => Some(&mut self.chats[i]),
            None => None,
        }
    }

    /// The JID of the selected chat.
    pub fn selected(&self) -> (r: Option<&Jid>)
        ensures
            r matches Some(j) ==> self.selection() == Some(*j),
            r is None <==> self.selection() is None,
    {
        self.selected_chat.as_ref()
    }

    /// The first chat with the given JID.
    pub fn get(&self, jid: &Jid) -> (r: Option<&Chat>)
        ensures
            r is Some <==> has_chat(self.list(), jid.0@),
            r matches Some(c) ==> *c == self.list()[chat_pos(self.list(), jid.0@)],
    {
        match find_chat(&self.chats, jid) {
            Some(i) => Some(&self.chats[i]),
            None => None,
        }
    }

    /// Selects a chat and gives it, when the list has it.
    pub fn select(&mut self, jid: Jid) -> (r: Option<&Chat>)
        ensures
            final(self).selection() == Some(jid),
            final(self).list() == old(self).list(),
            final(self).previews() == old(self).previews(),
            final(self).wf() == old(self).wf(),
            r is Some <==> has_chat(old(self).list(), jid.0@),
            r matches Some(c) ==> *c == old(self).list()[chat_pos(old(self).list(), jid.0@)],
    {
        let pos = find_chat(&self.chats, &jid);
        self.selected_chat = Some(jid);
        match pos {
            Some(i) => Some(&self.chats[i]),
            None => None,
        }
    }

    /// Clears the selection.
    pub fn clear_selection(&mut self)
        ensures
            final(self).selection() is None,
            final(self).list() == old(self).list(),
            final(self).previews() == old(self).previews(),
            final(self).wf() == old(self).wf(),
    {
        self.selected_chat = None;
    }

    /// Replaces the first chat with the chat's JID, or appends the chat;
    /// tells whether it is new or its activity, unread count or last message changed.
    pub fn update_from_rpc(&mut self, chat: rpc::Chat) -> (r: bool)
        ensures
            final(self).selection() == old(self).selection(),
            final(self).previews() == old(self).previews(),
            final(self).wf() == old(self).wf(),
            has_chat(old(self).list(), chat.jid.0@) ==> ({
                let p = chat_pos(old(self).list(), chat.jid.0@);
                let e = old(self).list()[p];
                &&& final(self).list() == old(self).list().update(p, chat)
                &&& r == (e.last_activity != chat.last_activity || e.unread_count != chat.unread_count
                    || crate::model::chat::text_or_empty(e.last_message) != crate::model::chat::text_or_empty(chat.last_message)
                    || (e.last_message is Some) != (chat.last_message is Some))
            }),
            !has_chat(old(self).list(), chat.jid.0@) ==> final(self).list() == old(self).list().push(chat) && r,
    {
        match find_chat(&self.chats, &chat.jid) {
            Some(i) => {
                let e = &self.chats[i];
                let same_message = match (&e.last_message, &chat.last_message) {
                    (Some(a), Some(b)) => *a == *b,
                    (None, None) => true,
                    _ => false,
                };
                let was_updated = e.last_activity != chat.last_activity || e.unread_count != chat.unread_count
                    || !same_message;
                self.chats.set(i, chat);
                was_updated
            },
            None => {
                self.chats.push(chat);
                true
            },
        }
    }

    /// Replaces all chats; tells whether the list went from empty to non-empty.
    pub fn set_from_rpc(&mut self, chats: Vec<rpc::Chat>) -> (r: bool)
        ensures
            final(self).list() == chats@,
            r == (old(self).list().len() == 0 && chats@.len() > 0),
            final(self).selection() == old(self).selection(),
            final(self).previews() == old(self).previews(),
            final(self).wf() == old(self).wf(),
    {
        let had_chats = self.chats.len() > 0;
        self.chats = chats;
        !had_chats && self.chats.len() > 0
    }

    /// Renames, to the trimmed name, every chat with the same JID or the same
    /// normalized user whose name differs; tells whether any chat changed.
    /// A name that is empty once trimmed changes nothing.
    pub fn update_contact_name(&mut self, jid: &Jid, name: &str) -> (r: bool)
        ensures
            final(self).selection() == old(self).selection(),
            final(self).previews() == old(self).previews(),
            final(self).wf() == old(self).wf(),
            final(self).list().len() == old(self).list().len(),
            trimmed(name@).len() == 0 ==> !r && final(self).list() == old(self).list(),
            trimmed(name@).len() > 0 ==> (r == exists|i: int|
                0 <= i < old(self).list().len() && rename_applies(#[trigger] old(self).list()[i], jid.0@, trimmed(name@))),
            trimmed(name@).len() > 0 ==> forall|i: int|
                0 <= i < old(self).list().len() ==> (if rename_applies(
                    #[trigger] old(self).list()[i],
                    jid.0@,
                    trimmed(name@),
                ) {
                    final(self).list()[i] == renamed(old(self).list()[i], final(self).list()[i].name)
                        && final(self).list()[i].name@ == trimmed(name@)
                } else {
                    final(self).list()[i] == old(self).list()[i]
                }),
    {
        let t = trim(name);
        let tv = chars_of(t);
        if tv.len() == 0 {
            return false;
        }
        let normalized = jid.normalized_user();
        let ghost orig = self.chats@;
        let mut updated = false;
        let mut i: usize = 0;
        while i < self.chats.len()
            invariant
                self.chats@.len() == orig.len(),
                orig == old(self).list(),
                self.selection() == old(self).selection(),
                self.previews() == old(self).previews(),
                self.wf() == old(self).wf(),
                t@ == trimmed(name@),
                normalized@ == jid_normalized_user(jid.0@),
                0 <= i <= orig.len(),
                updated == exists|j: int| 0 <= j < i && rename_applies(#[trigger] orig[j], jid.0@, t@),
                forall|j: int| i <= j < orig.len() ==> #[trigger] self.chats@[j] == orig[j],
                forall|j: int|
                    0 <= j < i ==> (if rename_applies(#[trigger] orig[j], jid.0@, t@) {
                        self.chats@[j] == renamed(orig[j], self.chats@[j].name) && self.chats@[j].name@ == t@
                    } else {
                        self.chats@[j] == orig[j]
                    }),
            decreases orig.len() - i,
        {
            let same_jid = self.chats[i].jid == *jid;
            let other = self.chats[i].jid.normalized_user();
            let same_user = other == normalized;
            let differs = !crate::text::str_eq(self.chats[i].name.as_str(), t);
            if (same_jid || same_user) && differs {
                self.chats[i].name = t.to_string();
                updated = true;
            }
            i = i + 1;
        }
        updated
    }

    /// Shows `preview` as the last message of the chat, unless a newer
    /// preview is already shown; a chat that is not in the list is added.
    pub fn update_preview(&mut self, chat_jid: &Jid, preview: String, timestamp: Timestamp)
        requires
            old(self).wf(),
        ensures
            final(self).wf(),
            final(self).selection() == old(self).selection(),
            ({
                let shown = lookup(old(self).previews(), chat_jid.0@);
                if shown matches Some(t) && timestamp < t {
                    final(self).list() == old(self).list() && final(self).previews() == old(self).previews()
                } else {
                    &&& final(self).previews() == stored(old(self).previews(), chat_jid.0, timestamp)
                    &&& has_chat(old(self).list(), chat_jid.0@) ==> ({
                        let p = chat_pos(old(self).list(), chat_jid.0@);
                        let c = old(self).list()[p];
                        final(self).list() == old(self).list().update(
                            p,
                            Chat { last_message: Some(preview), last_activity: Some(timestamp), ..c },
                        )
                    })
                    &&& !has_chat(old(self).list(), chat_jid.0@) ==> exists|label: String|
                        label@ == jid_normalized_user(chat_jid.0@) && final(self).list() == old(self).list().push(
                            preview_chat(*chat_jid, label, preview, timestamp),
                        )
                }
            }),
    {
        match self.chat_preview_timestamps.get(chat_jid.0.as_str()) {
            Some(last) => {
                if timestamp < *last {
                    return;
                }
            },
            None => {},
        }
        self.chat_preview_timestamps.insert(chat_jid.0.clone(), timestamp);
        match find_chat(&self.chats, chat_jid) {
            Some(i) => {
                self.chats[i].last_message = Some(preview);
                self.chats[i].last_activity = Some(timestamp);
            },
            None => {
                let label = chat_jid.display_label();
                let ghost glabel = label;
                let is_group = chat_jid.is_group();
                let chat = Chat {
                    jid: chat_jid.clone(),
                    name: label,
                    last_message: Some(preview),
                    last_activity: Some(timestamp),
                    is_group,
                    unread_count: 0,
                    is_muted: false,
                    is_pinned: false,
                };
                self.chats.push(chat);
                assert(self.chats@ == old(self).list().push(preview_chat(*chat_jid, glabel, preview, timestamp)));
            },
        }
    }

    /// Sorts the chats: pinned first, then by most recent activity, equal
    /// ranks keeping their order.
    pub fn sort(&mut self)
        ensures
            final(self).list() == sorted_chats(old(self).list()),
            final(self).selection() == old(self).selection(),
            final(self).previews() == old(self).previews(),
            final(self).wf() == old(self).wf(),
    {
        sort_chats(&mut self.chats);
    }

    /// The pinned chats, in order.
    pub fn pinned_chats(&self) -> (r: Vec<&Chat>)
        ensures
            ({
                let f = chats_where(self.list(), |c: Chat| c.is_pinned);
                r@.len() == f.len() && forall|k: int| 0 <= k < f.len() ==> *r@[k] == f[k]
            }),
    {
        let r = self.chats_with_pin(true);
        assert(chats_where(self.list(), |c: Chat| c.is_pinned == true) =~= chats_where(self.list(), |c: Chat| c.is_pinned)) by {
            lemma_chats_where_ext(self.list(), |c: Chat| c.is_pinned == true, |c: Chat| c.is_pinned);
        }
        r
    }

    /// The chats that are not pinned, in order.
    pub fn unpinned_chats(&self) -> (r: Vec<&Chat>)
        ensures
            ({
                let f = chats_where(self.list(), |c: Chat| !c.is_pinned);
                r@.len() == f.len() && forall|k: int| 0 <= k < f.len() ==> *r@[k] == f[k]
            }),
    {
        let r = self.chats_with_pin(false);
        assert(chats_where(self.list(), |c: Chat| c.is_pinned == false) =~= chats_where(self.list(), |c: Chat| !c.is_pinned)) by {
            lemma_chats_where_ext(self.list(), |c: Chat| c.is_pinned == false, |c: Chat| !c.is_pinned);
        }
        r
    }

    fn chats_with_pin(&self, pinned: bool) -> (r: Vec<&Chat>)
        ensures
            ({
                let f = chats_where(self.list(), |c: Chat| c.is_pinned == pinned);
                r@.len() == f.len() && forall|k: int| 0 <= k < f.len() ==> *r@[k] == f[k]
            }),
    {
        let ghost s = self.chats@;
        let ghost keep = |c: Chat| c.is_pinned == pinned;
        let mut out: Vec<&Chat> = Vec::new();
        let mut i: usize = 0;
        while i < self.chats.len()
            invariant
                s == self.chats@,
                keep == (|c: Chat| c.is_pinned == pinned),
                0 <= i <= s.len(),
                out@.len() == chats_where(s.take(i as int), keep).len(),
                forall|k: int| 0 <= k < out@.len() ==> *out@[k] == chats_where(s.take(i as int), keep)[k],
            decreases s.len() - i,
        {
            assert(s.take(i + 1).drop_last() =~= s.take(i as int));
            if self.chats[i].is_pinned == pinned {
                out.push(&self.chats[i]);
            }
            i = i + 1;
        }
        assert(s.take(s.len() as int) =~= s);
        out
    }

    /// The sum of the unread counts of all chats.
    pub fn total_unread_count(&self) -> (r: u32)
        requires
            unread_total(self.list()) <= u32::MAX,
        ensures
            r == unread_total(self.list()),
    {
        let ghost s = self.chats@;
        let mut total: u32 = 0;
        let mut i: usize = 0;
        while i < self.chats.len()
            invariant
                s == self.chats@,
                unread_total(s) <= u32::MAX,
                0 <= i <= s.len(),
                total == unread_total(s.take(i as int)),
            decreases s.len() - i,
        {
            assert(s.take(i + 1).drop_last() =~= s.take(i as int));
            proof {
                lemma_unread_prefix(s, i as int + 1);
            }
            total = total + self.chats[i].unread_count;
            i = i + 1;
        }
        assert(s.take(s.len() as int) =~= s);
        total
    }

    /// Marks the first chat with the JID as read; tells whether it had unread messages.
    pub fn mark_as_read(&mut self, jid: &Jid) -> (r: bool)
        ensures
            final(self).selection() == old(self).selection(),
            final(self).previews() == old(self).previews(),
            final(self).wf() == old(self).wf(),
            has_chat(old(self).list(), jid.0@) ==> ({
                let p = chat_pos(old(self).list(), jid.0@);
                let c = old(self).list()[p];
                final(self).list() == old(self).list().update(p, Chat { unread_count: 0, ..c }) && r == (c.unread_count > 0)
            }),
            !has_chat(old(self).list(), jid.0@) ==> final(self).list() == old(self).list() && !r,
    {
        match find_chat(&self.chats, jid) {
            Some(i) => {
                let was_unread = self.chats[i].unread_count > 0;
                self.chats[i].unread_count = 0;
                was_unread
            },
            None => false,
        }
    }

    /// Pins the first chat with the JID and re-sorts; tells whether it was unpinned.
    pub fn pin_chat(&mut self, jid: &Jid) -> (r: bool)
        ensures
            final(self).selection() == old(self).selection(),
            final(self).previews() == old(self).previews(),
            final(self).wf() == old(self).wf(),
            r == (has_chat(old(self).list(), jid.0@) && !old(self).list()[chat_pos(old(self).list(), jid.0@)].is_pinned),
            r ==> ({
                let p = chat_pos(old(self).list(), jid.0@);
                let c = old(self).list()[p];
                final(self).list() == sorted_chats(old(self).list().update(p, Chat { is_pinned: true, ..c }))
            }),
            !r ==> final(self).list() == old(self).list(),
    {
        match find_chat(&self.chats, jid) {
            Some(i) => {
                if !self.chats[i].is_pinned {
                    self.chats[i].is_pinned = true;
                    self.sort();
                    return true;
                }
                false
            },
            None => false,
        }
    }

    /// Unpins the first chat with the JID and re-sorts; tells whether it was pinned.
    pub fn unpin_chat(&mut self, jid: &Jid) -> (r: bool)
        ensures
            final(self).selection() == old(self).selection(),
            final(self).previews() == old(self).previews(),
            final(self).wf() == old(self).wf(),
            r == (has_chat(old(self).list(), jid.0@) && old(self).list()[chat_pos(old(self).list(), jid.0@)].is_pinned),
            r ==> ({
                let p = chat_pos(old(self).list(), jid.0@);
                let c = old(self).list()[p];
                final(self).list() == sorted_chats(old(self).list().update(p, Chat { is_pinned: false, ..c }))
            }),
            !r ==> final(self).list() == old(self).list(),
    {
        match find_chat(&self.chats, jid) {
            Some(i) => {
                if self.chats[i].is_pinned {
                    self.chats[i].is_pinned = false;
                    self.sort();
                    return true;
                }
                false
            },
            None => false,
        }
    }

    /// Mutes the first chat with the JID; tells whether it was not muted.
    pub fn mute_chat(&mut self, jid: &Jid) -> (r: bool)
        ensures
            final(self).selection() == old(self).selection(),
            final(self).previews() == old(self).previews(),
            final(self).wf() == old(self).wf(),
            r == (has_chat(old(self).list(), jid.0@) && !old(self).list()[chat_pos(old(self).list(), jid.0@)].is_muted),
            r ==> ({
                let p = chat_pos(old(self).list(), jid.0@);
                let c = old(self).list()[p];
                final(self).list() == old(self).list().update(p, Chat { is_muted: true, ..c })
            }),
            !r ==> final(self).list() == old(self).list(),
    {
        match find_chat(&self.chats, jid) {
            Some(i) => {
                if !self.chats[i].is_muted {
                    self.chats[i].is_muted = true;
                    return true;
                }
                false
            },
            None => false,
        }
    }

    /// Unmutes the first chat with the JID; tells whether it was muted.
    pub fn unmute_chat(&mut self, jid: &Jid) -> (r: bool)
        ensures
            final(self).selection() == old(self).selection(),
            final(self).previews() == old(self).previews(),
            final(self).wf() == old(self).wf(),
            r == (has_chat(old(self).list(), jid.0@) && old(self).list()[chat_pos(old(self).list(), jid.0@)].is_muted),
            r ==> ({
                let p = chat_pos(old(self).list(), jid.0@);
                let c = old(self).list()[p];
                final(self).list() == old(self).list().update(p, Chat { is_muted: false, ..c })
            }),
            !r ==> final(self).list() == old(self).list(),
    {
        match find_chat(&self.chats, jid) {
            Some(i) => {
                if self.chats[i].is_muted {
                    self.chats[i].is_muted = false;
                    return true;
                }
                false
            },
            None => false,
        }
    }

    /// Removes every chat with the JID and its preview time; tells whether any was removed.
    pub fn remove_chat(&mut self, jid: &Jid) -> (r: bool)
        requires
            old(self).wf(),
        ensures
            final(self).wf(),
            final(self).selection() == old(self).selection(),
            final(self).list() == chats_where(old(self).list(), |c: Chat| c.jid.0@ != jid.0@),
            final(self).previews() == removed(old(self).previews(), jid.0@),
            r == has_chat(old(self).list(), jid.0@),
    {
        let ghost s = self.chats@;
        let ghost keep = |c: Chat| c.jid.0@ != jid.0@;
        let len_before = self.chats.len();
        let mut kept: Vec<Chat> = Vec::new();
        let mut i: usize = 0;
        while i < self.chats.len()
            invariant
                s == self.chats@,
                keep == (|c: Chat| c.jid.0@ != jid.0@),
                0 <= i <= s.len(),
                kept@ == chats_where(s.take(i as int), keep),
                kept@.len() + (if exists|j: int| 0 <= j < i && #[trigger] s[j].jid.0@ == jid.0@ { 1int } else { 0int }) <= i,
                !(exists|j: int| 0 <= j < i && #[trigger] s[j].jid.0@ == jid.0@) ==> kept@.len() == i,
            decreases s.len() - i,
        {
            assert(s.take(i + 1).drop_last() =~= s.take(i as int));
            if !(self.chats[i].jid == *jid) {
                kept.push(self.chats[i].clone());
            }
            i = i + 1;
        }
        assert(s.take(s.len() as int) =~= s);
        self.chats = kept;
        let _ = self.chat_preview_timestamps.remove(jid.0.as_str());
        self.chats.len() < len_before
    }

    /// The chats whose lower-case name contains the lower-case query, in order.
    pub fn search_chats(&self, query: &str) -> (r: Vec<&Chat>)
        ensures
            ({
                let q = lowercase(query@);
                let f = chats_where(self.list(), |c: Chat| contains_seq(lowercase(c.name@), q));
                r@.len() == f.len() && forall|k: int| 0 <= k < f.len() ==> *r@[k] == f[k]
            }),
    {
        let q = to_lowercase(query);
        let qv = chars_of(q.as_str());
        let ghost s = self.chats@;
        let ghost keep = |c: Chat| contains_seq(lowercase(c.name@), lowercase(query@));
        let mut out: Vec<&Chat> = Vec::new();
        let mut i: usize = 0;
        while i < self.chats.len()
            invariant
                s == self.chats@,
                qv@ == lowercase(query@),
                keep == (|c: Chat| contains_seq(lowercase(c.name@), lowercase(query@))),
                0 <= i <= s.len(),
                out@.len() == chats_where(s.take(i as int), keep).len(),
                forall|k: int| 0 <= k < out@.len() ==> *out@[k] == chats_where(s.take(i as int), keep)[k],
            decreases s.len() - i,
        {
            assert(s.take(i + 1).drop_last() =~= s.take(i as int));
            let lower = to_lowercase(self.chats[i].name.as_str());
            let lv = chars_of(lower.as_str());
            if contains_chars(lv.as_slice(), qv.as_slice()) {
                out.push(&self.chats[i]);
            }
            i = i + 1;
        }
        assert(s.take(s.len() as int) =~= s);
        out
    }

    /// The number of chats.
    pub fn len(&self) -> (r: usize)
        ensures
            r == self.list().len(),
    {
        self.chats.len()
    }

    /// Whether there are no chats.
    pub fn is_empty(&self) -> (r: bool)
        ensures
            r == (self.list().len() == 0),
    {
        self.chats.len() == 0
    }

    /// Forgets every chat, the selection and the preview times.
    pub fn clear(&mut self)
        ensures
            final(self).wf(),
            final(self).list().len() == 0,
            final(self).selection() is None,
            final(self).previews().len() == 0,
    {
        self.chats.clear();
        self.selected_chat = None;
        self.chat_preview_timestamps.clear();
        self.pending_previews.clear();
    }

    /// Whether the chats can be shown: not while the user has to pair.
    pub fn can_show_chats_view(&self, connection: &ConnectionState) -> (r: bool)
        ensures
            r == chats_view_allowed(*connection),
    {
        match connection {
            ConnectionState::WaitingForQr { .. } => false,
            ConnectionState::WaitingForPairCode { .. } => false,
            ConnectionState::LoggedOut => false,
            _ => true,
        }
    }

    /// The view to show: the chats when there are some and pairing is not
    /// needed, the pairing screen otherwise.
    pub fn get_view_state(&self, connection: &ConnectionState) -> (r: ViewState)
        ensures
            r == (if self.list().len() > 0 && chats_view_allowed(*connection) {
                ViewState::Chats
            } else {
                ViewState::Pairing
            }),
    {
        if self.chats.len() > 0 && self.can_show_chats_view(connection) {
            ViewState::Chats
        } else {
            ViewState::Pairing
        }
    }
}

/// Two keep-predicates that agree give the same chats.
proof fn lemma_chats_where_ext(s: Seq<Chat>, f: spec_fn(Chat) -> bool, g: spec_fn(Chat) -> bool)
    requires
        forall|c: Chat| #[trigger] f(c) == g(c),
    ensures
        chats_where(s, f) == chats_where(s, g),
    decreases s.len(),
{
    if s.len() > 0 {
        lemma_chats_where_ext(s.drop_last(), f, g);
    }
}

} // verus!
