//! Typing indicators per chat and sender.

use vstd::prelude::*;
use crate::clock::{self, Timestamp};
use crate::keyed::{filter_entries, has_key, keys_distinct, lemma_filter_entries, lookup, removed, stored, value_of, StrMap};
use crate::rpc::Jid;

verus! {

/// Typing indicator state.
#[derive(Debug, Clone, Copy, PartialEq, Eq, Structural)]
pub enum TypingState {
    /// Not typing
    Idle,
    /// Typing text
    Typing,
    /// Recording audio
    Recording,
}

impl Default for TypingState {
    fn default() -> (r: Self)
        ensures
            r == TypingState::Idle,
    {
        TypingState::Idle
    }
}

/// The state of one sender in one chat, and when it was last reported.
#[derive(Debug, Clone, Copy)]
pub struct TypingEntry {
    pub state: TypingState,
    pub updated_at: Timestamp,
}

/// The entries of one chat, keyed by sender JID.
pub type SenderEntries = Seq<(String, StrMap<TypingEntry>)>;

/// Some sender of the chat is in state `s`.
pub open spec fn some_in_state(e: Seq<(String, TypingEntry)>, s: TypingState) -> bool {
    exists|i: int| 0 <= i < e.len() && #[trigger] e[i].1.state == s
}

/// The most relevant state among the senders of one chat:
/// recording over typing over idle.
pub open spec fn combined_state(e: Seq<(String, TypingEntry)>) -> TypingState {
    if some_in_state(e, TypingState::Recording) {
        TypingState::Recording
    } else if some_in_state(e, TypingState::Typing) {
        TypingState::Typing
    } else {
        TypingState::Idle
    }
}

/// The senders that are not idle, with their states, in order.
pub open spec fn active_senders(e: Seq<(String, TypingEntry)>) -> Seq<(String, TypingState)>
    decreases e.len(),
{
    if e.len() == 0 {
        Seq::empty()
    } else {
        let rest = active_senders(e.drop_last());
        let last = e.last();
        if last.1.state != TypingState::Idle {
            rest.push((last.0, last.1.state))
        } else {
            rest
        }
    }
}

/// An entry survives a cleanup at `now` when it is not idle and younger than `expiry` nanoseconds.
pub open spec fn entry_live(entry: TypingEntry, now: int, expiry: int) -> bool {
    entry.state != TypingState::Idle && now - entry.updated_at < expiry
}

/// The entries of one chat that survive a cleanup, in order.
pub open spec fn live_entries(e: Seq<(String, TypingEntry)>, now: int, expiry: int) -> Seq<
    (String, TypingEntry),
> {
    filter_entries(e, |t: TypingEntry| entry_live(t, now, expiry))
}

/// The chats after a cleanup: each keeps its live entries, and chats left
/// without entries are dropped.
pub open spec fn cleaned(s: Seq<(String, Seq<(String, TypingEntry)>)>, now: int, expiry: int) -> Seq<
    (String, Seq<(String, TypingEntry)>),
>
    decreases s.len(),
{
    if s.len() == 0 {
        Seq::empty()
    } else {
        let rest = cleaned(s.drop_last(), now, expiry);
        let kept = live_entries(s.last().1, now, expiry);
        if kept.len() > 0 {
            rest.push((s.last().0, kept))
        } else {
            rest
        }
    }
}

/// Every chat kept by a cleanup was a chat before, and chat keys stay distinct.
pub proof fn lemma_cleaned_keys(s: Seq<(String, Seq<(String, TypingEntry)>)>, now: int, expiry: int)
    ensures
        forall|k: int|
            0 <= k < cleaned(s, now, expiry).len() ==> has_key(s, #[trigger] cleaned(s, now, expiry)[k].0@),
        keys_distinct(s) ==> keys_distinct(cleaned(s, now, expiry)),
    decreases s.len(),
{
    if s.len() > 0 {
        let d = s.drop_last();
        lemma_cleaned_keys(d, now, expiry);
        let r = cleaned(d, now, expiry);
        assert forall|k: int| 0 <= k < r.len() implies has_key(s, #[trigger] r[k].0@) by {
            let j = choose|j: int| 0 <= j < d.len() && #[trigger] d[j].0@ == r[k].0@;
            assert(s[j] == d[j]);
        }
        let kept = live_entries(s.last().1, now, expiry);
        if kept.len() > 0 {
            let t = r.push((s.last().0, kept));
            assert(t == cleaned(s, now, expiry));
            assert forall|k: int| 0 <= k < t.len() implies has_key(s, #[trigger] t[k].0@) by {
                if k < r.len() {
                    assert(t[k] == r[k]);
                } else {
                    assert(s[s.len() - 1].0@ == t[k].0@);
                }
            }
            if keys_distinct(s) {
                assert(keys_distinct(d));
                assert forall|a: int, b: int| 0 <= a < t.len() && 0 <= b < t.len() && a != b implies t[a].0@
                    != t[b].0@ by {
                    if a < r.len() && b < r.len() {
                        assert(t[a] == r[a] && t[b] == r[b]);
                    } else if a < r.len() {
                        assert(t[a] == r[a]);
                        let j = choose|j: int| 0 <= j < d.len() && #[trigger] d[j].0@ == r[a].0@;
                        assert(s[j] == d[j]);
                    } else {
                        assert(t[b] == r[b]);
                        let j = choose|j: int| 0 <= j < d.len() && #[trigger] d[j].0@ == r[b].0@;
                        assert(s[j] == d[j]);
                    }
                }
            }
        } else {
            if keys_distinct(s) {
                assert(keys_distinct(d));
            }
        }
    }
}

/// Total number of entries over all chats.
pub open spec fn total_entries(s: Seq<(String, Seq<(String, TypingEntry)>)>) -> int
    decreases s.len(),
{
    if s.len() == 0 {
        0
    } else {
        total_entries(s.drop_last()) + s.last().1.len()
    }
}

/// The keys of a list of entries, in order.
pub open spec fn keys_of<V>(s: Seq<(String, V)>) -> Seq<String> {
    s.map_values(|e: (String, V)| e.0)
}

/// Manages typing indicators across all chats.
#[derive(Debug)]
pub struct TypingManager {
    indicators: StrMap<StrMap<TypingEntry>>,
    expiry_seconds: i64,
}

impl TypingManager {
    /// The chats with their sender entries, in order.
    pub closed spec fn chats(&self) -> Seq<(String, Seq<(String, TypingEntry)>)> {
        self.indicators@.map_values(|e: (String, StrMap<TypingEntry>)| (e.0, e.1@))
    }

    /// How long, in seconds, an indicator stays shown without a new report.
    pub closed spec fn expiry(&self) -> i64 {
        self.expiry_seconds
    }

    /// Chat keys are distinct, and so are the sender keys within each chat.
    pub closed spec fn wf(&self) -> bool {
        &&& self.indicators.wf()
        &&& forall|i: int| 0 <= i < self.indicators@.len() ==> #[trigger] self.indicators@[i].1.wf()
    }

    /// The entries of the chat with key `k`, if it has any.
    pub open spec fn chat_entries(&self, k: Seq<char>) -> Option<Seq<(String, TypingEntry)>> {
        lookup(self.chats(), k)
    }

    proof fn lemma_chats_view(&self)
        ensures
            self.chats().len() == self.indicators@.len(),
            forall|i: int|
                0 <= i < self.chats().len() ==> #[trigger] self.chats()[i] == (
                    self.indicators@[i].0,
                    self.indicators@[i].1@,
                ),
    {
    }

    /// The chat lists agree key by key with the stored maps.
    proof fn lemma_lookup_view(&self, k: Seq<char>)
        requires
            self.wf(),
        ensures
            has_key(self.chats(), k) == has_key(self.indicators@, k),
            has_key(self.indicators@, k) ==> value_of(self.chats(), k) == value_of(
                self.indicators@,
                k,
            )@,
            keys_distinct(self.chats()),
    {
        self.lemma_chats_view();
        if has_key(self.indicators@, k) {
            let p = crate::keyed::key_pos(self.indicators@, k);
            crate::keyed::lemma_key_pos_unique(self.indicators@, p);
            assert(self.chats()[p].0@ == k);
            assert(keys_distinct(self.chats()));
            crate::keyed::lemma_key_pos_unique(self.chats(), p);
        }
        if has_key(self.chats(), k) {
            let q = crate::keyed::key_pos(self.chats(), k);
            assert(self.indicators@[q].0@ == k);
        }
    }

    /// A manager with no indicators and an expiry of eight seconds.
    pub fn new() -> (r: Self)
        ensures
            r.wf(),
            r.chats() == Seq::<(String, Seq<(String, TypingEntry)>)>::empty(),
            r.expiry() == 8,
    {
        let r = TypingManager { indicators: StrMap::new(), expiry_seconds: 8 };
        assert(r.chats() =~= Seq::<(String, Seq<(String, TypingEntry)>)>::empty());
        r
    }

    /// A manager with no indicators and the given expiry in seconds.
    pub fn with_expiry(expiry_seconds: i64) -> (r: Self)
        ensures
            r.wf(),
            r.chats() == Seq::<(String, Seq<(String, TypingEntry)>)>::empty(),
            r.expiry() == expiry_seconds,
    {
        let r = TypingManager { indicators: StrMap::new(), expiry_seconds };
        assert(r.chats() =~= Seq::<(String, Seq<(String, TypingEntry)>)>::empty());
        r
    }

    /// The chats after `set_typing_at` with these arguments.
    pub open spec fn after_set(
        chats: Seq<(String, Seq<(String, TypingEntry)>)>,
        chat_key: String,
        sender_key: String,
        state: TypingState,
        now: Timestamp,
    ) -> Seq<(String, Seq<(String, TypingEntry)>)> {
        let inner = match lookup(chats, chat_key@) {
            Some(e) => e,
            None => Seq::empty(),
        };
        stored(chats, chat_key, stored(inner, sender_key, TypingEntry { state, updated_at: now }))
    }

    /// Records that `sender_jid` is in `state` in `chat_jid`, as reported at `now`.
    pub fn set_typing_at(&mut self, chat_jid: &Jid, sender_jid: &Jid, state: TypingState, now: Timestamp)
        requires
            old(self).wf(),
        ensures
            final(self).wf(),
            final(self).expiry() == old(self).expiry(),
            final(self).chats() == Self::after_set(
                old(self).chats(),
                chat_jid.0,
                sender_jid.0,
                state,
                now,
            ),
    {
        let entry = TypingEntry { state, updated_at: now };
        let ghost old_chats = self.chats();
        proof {
            self.lemma_lookup_view(chat_jid.0@);
        }
        match self.indicators.find(chat_jid.0.as_str()) {
            Some(i) => {
                let ghost old_ind = self.indicators@;
                assert(self.indicators@[i as int].1.wf());
                let inner = self.indicators.value_at_mut(i);
                inner.insert(sender_jid.0.clone(), entry);
                proof {
                    assert(self.indicators@ == old_ind.update(i as int, (old_ind[i as int].0, *inner)));
                    crate::keyed::lemma_key_pos_unique(old_ind, i as int);
                    assert(self.chats() =~= Self::after_set(old_chats, chat_jid.0, sender_jid.0, state, now));
                }
            },
            None => {
                let mut inner: StrMap<TypingEntry> = StrMap::new();
                inner.insert(sender_jid.0.clone(), entry);
                let ghost old_ind = self.indicators@;
                self.indicators.push_new(chat_jid.0.clone(), inner);
                proof {
                    assert(self.chats() =~= Self::after_set(old_chats, chat_jid.0, sender_jid.0, state, now));
                }
            },
        }
    }

    /// Records that `sender_jid` is in `state` in `chat_jid`, reported now.
    pub fn set_typing(&mut self, chat_jid: &Jid, sender_jid: &Jid, state: TypingState)
        requires
            old(self).wf(),
        ensures
            final(self).wf(),
            final(self).expiry() == old(self).expiry(),
            exists|now: Timestamp|
                final(self).chats() == #[trigger] Self::after_set(
                    old(self).chats(),
                    chat_jid.0,
                    sender_jid.0,
                    state,
                    now,
                ),
    {
        let now = clock::now();
        self.set_typing_at(chat_jid, sender_jid, state, now);
    }

    /// The most relevant state in a chat: recording over typing over idle.
    pub fn get_state(&self, chat_jid: &Jid) -> (r: TypingState)
        requires
            self.wf(),
        ensures
            r == match self.chat_entries(chat_jid.0@) {
                Some(e) => combined_state(e),
                None => TypingState::Idle,
            },
    {
        proof {
            self.lemma_lookup_view(chat_jid.0@);
        }
        match self.indicators.find(chat_jid.0.as_str()) {
            None => TypingState::Idle,
            Some(i) => {
                let inner = self.indicators.value_at(i);
                let ghost e = inner@;
                proof {
                    crate::keyed::lemma_key_pos_unique(self.indicators@, i as int);
                    assert(self.chat_entries(chat_jid.0@) == Some(e));
                }
                let mut has_typing = false;
                let mut j: usize = 0;
                while j < inner.len()
                    invariant
                        e == inner@,
                        self.chat_entries(chat_jid.0@) == Some(e),
                        0 <= j <= e.len(),
                        has_typing == (exists|k: int| 0 <= k < j && #[trigger] e[k].1.state == TypingState::Typing),
                        forall|k: int| 0 <= k < j ==> #[trigger] e[k].1.state != TypingState::Recording,
                    decreases e.len() - j,
                {
                    let st = inner.value_at(j).state;
                    match st {
                        TypingState::Recording => {
                            assert(some_in_state(e, TypingState::Recording));
                            return TypingState::Recording;
                        },
                        TypingState::Typing => {
                            has_typing = true;
                        },
                        TypingState::Idle => {},
                    }
                    j = j + 1;
                }
                if has_typing {
                    assert(some_in_state(e, TypingState::Typing));
                    TypingState::Typing
                } else {
                    TypingState::Idle
                }
            },
        }
    }

    /// Whether anyone is typing or recording in the chat.
    pub fn is_typing(&self, chat_jid: &Jid) -> (r: bool)
        requires
            self.wf(),
        ensures
            r == (match self.chat_entries(chat_jid.0@) {
                Some(e) => combined_state(e),
                None => TypingState::Idle,
            } != TypingState::Idle),
    {
        match self.get_state(chat_jid) {
            TypingState::Typing => true,
            TypingState::Recording => true,
            TypingState::Idle => false,
        }
    }

    /// Whether anyone is recording audio in the chat.
    pub fn is_recording(&self, chat_jid: &Jid) -> (r: bool)
        requires
            self.wf(),
        ensures
            r == (match self.chat_entries(chat_jid.0@) {
                Some(e) => combined_state(e),
                None => TypingState::Idle,
            } == TypingState::Recording),
    {
        match self.get_state(chat_jid) {
            TypingState::Recording => true,
            _ => false,
        }
    }

    /// The senders of the chat that are not idle, with their states.
    pub fn get_typing_users(&self, chat_jid: &Jid) -> (r: Vec<(String, TypingState)>)
        requires
            self.wf(),
        ensures
            r@ == match self.chat_entries(chat_jid.0@) {
                Some(e) => active_senders(e),
                None => Seq::empty(),
            },
    {
        proof {
            self.lemma_lookup_view(chat_jid.0@);
        }
        match self.indicators.find(chat_jid.0.as_str()) {
            None => Vec::new(),
            Some(i) => {
                let inner = self.indicators.value_at(i);
                let ghost e = inner@;
                proof {
                    crate::keyed::lemma_key_pos_unique(self.indicators@, i as int);
                    assert(self.chat_entries(chat_jid.0@) == Some(e));
                }
                let mut out: Vec<(String, TypingState)> = Vec::new();
                let mut j: usize = 0;
                while j < inner.len()
                    invariant
                        e == inner@,
                        0 <= j <= e.len(),
                        out@ == active_senders(e.take(j as int)),
                    decreases e.len() - j,
                {
                    let st = inner.value_at(j).state;
                    assert(e.take(j + 1).drop_last() =~= e.take(j as int));
                    if st != TypingState::Idle {
                        out.push((inner.key_at(j).clone(), st));
                    }
                    j = j + 1;
                }
                assert(e.take(e.len() as int) =~= e);
                out
            },
        }
    }

    /// Removes the indicator of one sender in one chat; a chat left without
    /// indicators is dropped.
    pub fn clear_user(&mut self, chat_jid: &Jid, sender_jid: &Jid)
        requires
            old(self).wf(),
        ensures
            final(self).wf(),
            final(self).expiry() == old(self).expiry(),
            final(self).chats() == (match lookup(old(self).chats(), chat_jid.0@) {
                Some(e) => if removed(e, sender_jid.0@).len() == 0 {
                    removed(old(self).chats(), chat_jid.0@)
                } else {
                    stored(old(self).chats(), chat_jid.0, removed(e, sender_jid.0@))
                },
                None => old(self).chats(),
            }),
    {
        let ghost old_chats = self.chats();
        proof {
            self.lemma_lookup_view(chat_jid.0@);
        }
        match self.indicators.find(chat_jid.0.as_str()) {
            Some(i) => {
                let ghost old_ind = self.indicators@;
                assert(self.indicators@[i as int].1.wf());
                let last_one = {
                    let inner = self.indicators.value_at(i);
                    match inner.find(sender_jid.0.as_str()) {
                        Some(_) => inner.len() == 1,
                        None => inner.len() == 0,
                    }
                };
                proof {
                    crate::keyed::lemma_key_pos_unique(old_ind, i as int);
                    assert(lookup(old_chats, chat_jid.0@) == Some(old_chats[i as int].1));
                }
                if last_one {
                    self.clear_chat(chat_jid);
                } else {
                    let inner = self.indicators.value_at_mut(i);
                    let _ = inner.remove(sender_jid.0.as_str());
                    proof {
                        assert(self.chats() =~= stored(old_chats, chat_jid.0, removed(old_chats[i as int].1, sender_jid.0@)));
                    }
                }
            },
            None => {},
        }
    }

    /// Removes every indicator of one chat.
    pub fn clear_chat(&mut self, chat_jid: &Jid)
        requires
            old(self).wf(),
        ensures
            final(self).wf(),
            final(self).expiry() == old(self).expiry(),
            final(self).chats() == removed(old(self).chats(), chat_jid.0@),
    {
        let ghost old_chats = self.chats();
        let ghost old_ind = self.indicators@;
        proof {
            self.lemma_lookup_view(chat_jid.0@);
        }
        let _ = self.indicators.remove(chat_jid.0.as_str());
        proof {
            if has_key(old_ind, chat_jid.0@) {
                let p = crate::keyed::key_pos(old_ind, chat_jid.0@);
                assert(self.chats() =~= old_chats.remove(p));
            } else {
                assert(self.chats() =~= old_chats);
            }
            assert forall|i: int| 0 <= i < self.indicators@.len() implies #[trigger] self.indicators@[i].1.wf() by {
                if has_key(old_ind, chat_jid.0@) {
                    let p = crate::keyed::key_pos(old_ind, chat_jid.0@);
                    if i < p {
                        assert(self.indicators@[i] == old_ind[i]);
                    } else {
                        assert(self.indicators@[i] == old_ind[i + 1]);
                    }
                }
            }
        }
    }

    /// The live entries of one chat, as a new map.
    fn live_of(inner: &StrMap<TypingEntry>, now: Timestamp, span: i128) -> (r: StrMap<TypingEntry>)
        requires
            inner.wf(),
        ensures
            r@ == live_entries(inner@, now as int, span as int),
            r.wf(),
    {
        let ghost e = inner@;
        let mut out: Vec<(String, TypingEntry)> = Vec::new();
        let mut j: usize = 0;
        while j < inner.len()
            invariant
                e == inner@,
                keys_distinct(e),
                0 <= j <= e.len(),
                out@ == live_entries(e.take(j as int), now as int, span as int),
            decreases e.len() - j,
        {
            let entry = *inner.value_at(j);
            assert(e.take(j + 1).drop_last() =~= e.take(j as int));
            if entry.state != TypingState::Idle && clock::elapsed_less_than(now, entry.updated_at, span) {
                out.push((inner.key_at(j).clone(), entry));
            }
            j = j + 1;
        }
        assert(e.take(e.len() as int) =~= e);
        proof {
            lemma_filter_entries(e, |t: TypingEntry| entry_live(t, now as int, span as int));
        }
        StrMap::from_entries(out)
    }

    /// The chats as the manager reports them, computed from a list of stored maps.
    pub open spec fn chats_of(s: Seq<(String, StrMap<TypingEntry>)>) -> Seq<(String, Seq<(String, TypingEntry)>)> {
        s.map_values(|e: (String, StrMap<TypingEntry>)| (e.0, e.1@))
    }

    /// Drops the indicators that are idle or older than the expiry at `now`,
    /// and the chats left without indicators.
    pub fn cleanup_at(&mut self, now: Timestamp)
        requires
            old(self).wf(),
            -clock::MAX_DELTA_SECONDS <= old(self).expiry() <= clock::MAX_DELTA_SECONDS,
        ensures
            final(self).wf(),
            final(self).expiry() == old(self).expiry(),
            final(self).chats() == cleaned(old(self).chats(), now as int, old(self).expiry() * 1_000_000_000),
    {
        let span = clock::seconds(self.expiry_seconds);
        let ghost c = self.chats();
        let ghost ind = self.indicators@;
        let mut out: Vec<(String, StrMap<TypingEntry>)> = Vec::new();
        let mut i: usize = 0;
        while i < self.indicators.len()
            invariant
                self.wf(),
                c == self.chats(),
                ind == self.indicators@,
                c == Self::chats_of(ind),
                span == self.expiry() * 1_000_000_000,
                0 <= i <= ind.len(),
                Self::chats_of(out@) == cleaned(c.take(i as int), now as int, span as int),
                forall|k: int| 0 <= k < out@.len() ==> #[trigger] out@[k].1.wf(),
            decreases ind.len() - i,
        {
            assert(ind[i as int].1.wf());
            let kept = Self::live_of(self.indicators.value_at(i), now, span);
            assert(c.take(i + 1).drop_last() =~= c.take(i as int));
            assert(c[i as int] == (ind[i as int].0, ind[i as int].1@));
            if !kept.is_empty() {
                let ghost before = out@;
                out.push((self.indicators.key_at(i).clone(), kept));
                assert(Self::chats_of(out@) =~= Self::chats_of(before).push((ind[i as int].0, kept@)));
            }
            i = i + 1;
        }
        assert(c.take(c.len() as int) =~= c);
        proof {
            lemma_cleaned_keys(c, now as int, span as int);
            assert(keys_distinct(c)) by {
                self.lemma_lookup_view(Seq::empty());
            }
            let oc = Self::chats_of(out@);
            assert forall|a: int, b: int| 0 <= a < out@.len() && 0 <= b < out@.len() && a != b implies out@[a].0@
                != out@[b].0@ by {
                assert(oc[a].0 == out@[a].0);
                assert(oc[b].0 == out@[b].0);
            }
        }
        self.indicators = StrMap::from_entries(out);
    }

    /// Drops the indicators that are idle or have expired, as of now.
    pub fn cleanup(&mut self)
        requires
            old(self).wf(),
            -clock::MAX_DELTA_SECONDS <= old(self).expiry() <= clock::MAX_DELTA_SECONDS,
        ensures
            final(self).wf(),
            final(self).expiry() == old(self).expiry(),
            exists|now: Timestamp|
                final(self).chats() == #[trigger] cleaned(old(self).chats(), now as int, old(self).expiry() * 1_000_000_000),
    {
        let now = clock::now();
        self.cleanup_at(now);
    }

    /// The keys of the chats that have indicators, in order.
    pub fn active_chats(&self) -> (r: Vec<String>)
        ensures
            r@ == keys_of(self.chats()),
    {
        let mut out: Vec<String> = Vec::new();
        let mut i: usize = 0;
        while i < self.indicators.len()
            invariant
                0 <= i <= self.indicators@.len(),
                out@ == keys_of(self.chats()).take(i as int),
            decreases self.indicators@.len() - i,
        {
            out.push(self.indicators.key_at(i).clone());
            assert(out@ =~= keys_of(self.chats()).take(i + 1));
            i = i + 1;
        }
        assert(out@ =~= keys_of(self.chats()));
        out
    }

    /// Whether any chat has indicators.
    pub fn has_active_indicators(&self) -> (r: bool)
        ensures
            r == (self.chats().len() > 0),
    {
        !self.indicators.is_empty()
    }

    /// Removes every indicator.
    pub fn clear_all(&mut self)
        ensures
            final(self).wf(),
            final(self).expiry() == old(self).expiry(),
            final(self).chats() == Seq::<(String, Seq<(String, TypingEntry)>)>::empty(),
    {
        self.indicators.clear();
        assert(self.chats() =~= Seq::<(String, Seq<(String, TypingEntry)>)>::empty());
    }

    /// The number of indicators over all chats.
    pub fn active_count(&self) -> (r: usize)
        requires
            total_entries(self.chats()) <= usize::MAX,
        ensures
            r == total_entries(self.chats()),
    {
        let ghost c = self.chats();
        let mut total: usize = 0;
        let mut i: usize = 0;
        while i < self.indicators.len()
            invariant
                c == self.chats(),
                c.len() == self.indicators@.len(),
                total_entries(c) <= usize::MAX,
                0 <= i <= c.len(),
                total == total_entries(c.take(i as int)),
            decreases c.len() - i,
        {
            assert(c.take(i + 1).drop_last() =~= c.take(i as int));
            assert(c[i as int].1 == self.indicators@[i as int].1@);
            proof {
                lemma_total_prefix(c, i as int + 1);
            }
            total = total + self.indicators.value_at(i).len();
            i = i + 1;
        }
        assert(c.take(c.len() as int) =~= c);
        total
    }

    /// Sets the expiry of indicators, in seconds.
    pub fn set_expiry(&mut self, seconds: i64)
        ensures
            final(self).expiry() == seconds,
            final(self).chats() == old(self).chats(),
            old(self).wf() ==> final(self).wf(),
    {
        self.expiry_seconds = seconds;
    }
}

/// The entry count of a prefix never exceeds the total.
proof fn lemma_total_prefix(s: Seq<(String, Seq<(String, TypingEntry)>)>, n: int)
    requires
        0 <= n <= s.len(),
    ensures
        total_entries(s.take(n)) <= total_entries(s),
    decreases s.len() - n,
{
    if n < s.len() {
        lemma_total_prefix(s, n + 1);
        assert(s.take(n + 1).drop_last() =~= s.take(n));
    } else {
        assert(s.take(n) =~= s);
    }
}

impl TypingManager {
    /// The chats of a well-formed manager have distinct keys, and so do the
    /// senders of each chat.
    proof fn lemma_wf_chats(&self)
        requires
            self.wf(),
        ensures
            keys_distinct(self.chats()),
            forall|i: int| 0 <= i < self.chats().len() ==> keys_distinct(#[trigger] self.chats()[i].1),
    {
        self.lemma_chats_view();
        assert forall|i: int| 0 <= i < self.chats().len() implies keys_distinct(#[trigger] self.chats()[i].1) by {
            assert(self.indicators@[i].1.wf());
        }
        assert(keys_distinct(self.chats())) by {
            assert forall|a: int, b: int|
                0 <= a < self.chats().len() && 0 <= b < self.chats().len() && a != b implies self.chats()[a].0@
                != self.chats()[b].0@ by {
                assert(self.chats()[a].0 == self.indicators@[a].0);
                assert(self.chats()[b].0 == self.indicators@[b].0);
            }
        }
    }
}

/// After a sender is reported in a state, the chat holds that sender in that
/// state, and the chat's state reflects it: recording makes the chat
/// recording, typing makes it at least typing.
pub proof fn lemma_set_typing_shows(m: TypingManager, chat: String, sender: String, state: TypingState, now: Timestamp)
    requires
        m.wf(),
    ensures
        ({
            let after = TypingManager::after_set(m.chats(), chat, sender, state, now);
            &&& lookup(after, chat@) matches Some(e)
            &&& lookup(e, sender@) == Some(TypingEntry { state, updated_at: now })
            &&& (state == TypingState::Recording ==> combined_state(e) == TypingState::Recording)
            &&& (state == TypingState::Typing ==> combined_state(e) != TypingState::Idle)
        }),
{
    m.lemma_wf_chats();
    let c = m.chats();
    let inner = match lookup(c, chat@) {
        Some(e) => e,
        None => Seq::empty(),
    };
    assert(keys_distinct(inner)) by {
        if has_key(c, chat@) {
            let p = crate::keyed::key_pos(c, chat@);
            assert(keys_distinct(c[p].1));
        }
    }
    let entry = TypingEntry { state, updated_at: now };
    let e = stored(inner, sender, entry);
    crate::keyed::lemma_stored_distinct(inner, sender, entry);
    crate::keyed::lemma_stored_distinct(c, chat, e);
    let p = crate::keyed::key_pos(e, sender@);
    assert(e[p].1 == entry);
    assert(e[p].1.state == state);
    assert(some_in_state(e, state));
}

/// After a chat is cleared, it has no indicators and its state is idle.
pub proof fn lemma_clear_chat_idle(m: TypingManager, chat: Seq<char>)
    requires
        m.wf(),
    ensures
        lookup(removed(m.chats(), chat), chat) is None,
{
    m.lemma_wf_chats();
    crate::keyed::lemma_removed_distinct(m.chats(), chat);
}

/// After a cleanup at `now`, every indicator left is not idle and was
/// reported less than the expiry before `now`.
pub proof fn lemma_cleaned_live(s: Seq<(String, Seq<(String, TypingEntry)>)>, now: int, expiry: int, i: int, j: int)
    requires
        0 <= i < cleaned(s, now, expiry).len(),
        0 <= j < cleaned(s, now, expiry)[i].1.len(),
    ensures
        cleaned(s, now, expiry)[i].1[j].1.state != TypingState::Idle,
        now - cleaned(s, now, expiry)[i].1[j].1.updated_at < expiry,
    decreases s.len(),
{
    if s.len() > 0 {
        let d = s.drop_last();
        let r = cleaned(d, now, expiry);
        let kept = live_entries(s.last().1, now, expiry);
        if i < r.len() {
            if kept.len() > 0 {
                assert(cleaned(s, now, expiry)[i] == r[i]);
            }
            lemma_cleaned_live(d, now, expiry, i, j);
        } else {
            crate::keyed::lemma_filter_entries_keep(s.last().1, |t: TypingEntry| entry_live(t, now, expiry));
            assert(cleaned(s, now, expiry)[i].1 == kept);
            assert(entry_live(kept[j].1, now, expiry));
        }
    }
}

} // verus!
