//! State of the chat screen: the chats, the selected chat, the messages of
//! each chat, the typed text and who is typing.

use vstd::prelude::*;
use crate::app_core::types::{Chat, ChatMessage};
use crate::clock::{self, Timestamp};
use crate::keyed::{has_key, key_pos, list_views, lookup, push_under, pushed_under, stored, StrMap};
use crate::model::chat::{pending_id, pending_id_at, text_or_empty};
use crate::whatsapp::{self, Jid, MessageStatus, TypingState};
use crate::whatsapp::types::{content_preview, content_previewable};

verus! {

/// State of the chat screen.
#[derive(Debug)]
pub struct State {
    chats: Vec<Chat>,
    selected_chat: Option<Jid>,
    messages: StrMap<Vec<ChatMessage>>,
    input_value: String,
    typing_indicators: StrMap<StrMap<TypingState>>,
}

/// The position of the first chat with JID `jid`, or the length when none has it.
pub open spec fn chat_index(s: Seq<Chat>, jid: Seq<char>) -> int {
    if exists|i: int| 0 <= i < s.len() && #[trigger] s[i].jid.0@ == jid {
        choose|i: int| 0 <= i < s.len() && s[i].jid.0@ == jid && forall|j: int| 0 <= j < i ==> #[trigger] s[j].jid.0@ != jid
    } else {
        s.len() as int
    }
}

/// Some message of `l` has id `id`.
pub open spec fn has_message(l: Seq<ChatMessage>, id: Seq<char>) -> bool {
    exists|i: int| 0 <= i < l.len() && #[trigger] l[i].id@ == id
}

/// The index of the first message with id `id` in `l`, or its length.
pub open spec fn message_index(l: Seq<ChatMessage>, id: Seq<char>) -> int {
    if has_message(l, id) {
        choose|i: int| 0 <= i < l.len() && l[i].id@ == id && forall|j: int| 0 <= j < i ==> #[trigger] l[j].id@ != id
    } else {
        l.len() as int
    }
}

/// The position of the first chat whose list has a message with id `id`,
/// or the number of chats.
pub open spec fn list_index(c: Seq<(String, Seq<ChatMessage>)>, id: Seq<char>) -> int {
    if exists|k: int| 0 <= k < c.len() && has_message(#[trigger] c[k].1, id) {
        choose|k: int|
            0 <= k < c.len() && has_message(c[k].1, id) && forall|j: int| 0 <= j < k ==> !has_message(#[trigger] c[j].1, id)
    } else {
        c.len() as int
    }
}

/// The lists after giving the first message with id `id` the status `status`.
pub open spec fn status_set(c: Seq<(String, Seq<ChatMessage>)>, id: Seq<char>, status: MessageStatus) -> Seq<(String, Seq<ChatMessage>)> {
    let k = list_index(c, id);
    if 0 <= k < c.len() {
        let i = message_index(c[k].1, id);
        c.update(k, (c[k].0, c[k].1.update(i, ChatMessage { status, ..c[k].1[i] })))
    } else {
        c
    }
}

impl State {
    /// The chats, in order.
    pub closed spec fn chat_list(&self) -> Seq<Chat> {
        self.chats@
    }

    /// The selected chat.
    pub closed spec fn selected(&self) -> Option<Jid> {
        self.selected_chat
    }

    /// The message lists per chat key, in the order the chats first got one.
    pub closed spec fn timelines(&self) -> Seq<(String, Seq<ChatMessage>)> {
        list_views(self.messages@)
    }

    /// The key of the selected chat's messages (meaningful when a chat is selected).
    pub closed spec fn selected_key(&self) -> String {
        match self.selected_chat {
            Some(j) => j.0,
            None => vstd::pervasive::arbitrary(),
        }
    }

    /// The typed text.
    pub closed spec fn input(&self) -> Seq<char> {
        self.input_value@
    }

    /// Per chat key, the typing state of each sender.
    pub closed spec fn typing(&self) -> Seq<(String, Seq<(String, TypingState)>)> {
        self.typing_indicators@.map_values(|e: (String, StrMap<TypingState>)| (e.0, e.1@))
    }

    /// The keyed collections have distinct keys.
    pub closed spec fn wf(&self) -> bool {
        &&& self.messages.wf()
        &&& self.typing_indicators.wf()
        &&& forall|i: int| 0 <= i < self.typing_indicators@.len() ==> (#[trigger] self.typing_indicators@[i]).1.wf()
    }

    /// An empty screen state.
    pub fn new() -> (r: Self)
        ensures
            r.wf(),
            r.chat_list().len() == 0,
            r.selected() is None,
            r.timelines().len() == 0,
            r.input().len() == 0,
            r.typing().len() == 0,
    {
        let r = State {
            chats: Vec::new(),
            selected_chat: None,
            messages: StrMap::new(),
            input_value: String::new(),
            typing_indicators: StrMap::new(),
        };
        assert(r.timelines() =~= Seq::empty());
        assert(r.typing() =~= Seq::empty());
        r
    }

    /// Selects a chat.
    pub fn select_chat(&mut self, jid: Jid)
        ensures
            final(self).selected() == Some(jid),
            final(self).chat_list() == old(self).chat_list(),
            final(self).timelines() == old(self).timelines(),
            final(self).input() == old(self).input(),
            final(self).typing() == old(self).typing(),
            final(self).wf() == old(self).wf(),
    {
        self.selected_chat = Some(jid);
    }

    /// Sets the typed text.
    pub fn set_input(&mut self, value: String)
        ensures
            final(self).input() == value@,
            final(self).selected() == old(self).selected(),
            final(self).chat_list() == old(self).chat_list(),
            final(self).timelines() == old(self).timelines(),
            final(self).typing() == old(self).typing(),
            final(self).wf() == old(self).wf(),
    {
        self.input_value = value;
    }

    /// Sends the typed text at time `now`: with text typed and a chat
    /// selected, a pending message of ours with the text is added to the
    /// chat's list under a `pending_` id, and the input is cleared.
    pub fn send_message_at(&mut self, now: Timestamp)
        requires
            old(self).wf(),
        ensures
            final(self).wf(),
            (old(self).input().len() > 0 && old(self).selected() is Some) ==> (exists|m: ChatMessage|
                m.id@ == pending_id(now as int) && m.is_me && m.content@ == old(self).input() && m.timestamp == now
                    && m.status == MessageStatus::Pending && final(self).timelines() == #[trigger] pushed_under(
                    old(self).timelines(),
                    old(self).selected_key(),
                    m,
                )) && final(self).input().len() == 0,
            !(old(self).input().len() > 0 && old(self).selected() is Some) ==> final(self).timelines()
                == old(self).timelines() && final(self).input() == old(self).input(),
            final(self).selected() == old(self).selected(),
            final(self).chat_list() == old(self).chat_list(),
            final(self).typing() == old(self).typing(),
    {
        if self.input_value.as_str().is_empty() {
            return;
        }
        let chat_key = match &self.selected_chat {
            Some(j) => j.0.clone(),
            None => return,
        };
        let msg = ChatMessage {
            id: pending_id_at(now),
            is_me: true,
            content: self.input_value.clone(),
            timestamp: now,
            status: MessageStatus::Pending,
        };
        let ghost gm = msg;
        push_under(&mut self.messages, chat_key, msg);
        self.input_value = String::new();
        assert(final(self).timelines() == pushed_under(old(self).timelines(), old(self).selected_key(), gm));
    }

    /// Sends the typed text now.
    pub fn send_message(&mut self)
        requires
            old(self).wf(),
        ensures
            final(self).wf(),
            (old(self).input().len() > 0 && old(self).selected() is Some) ==> (exists|m: ChatMessage|
                m.is_me && m.content@ == old(self).input() && m.status == MessageStatus::Pending
                    && final(self).timelines() == #[trigger] pushed_under(
                    old(self).timelines(),
                    old(self).selected_key(),
                    m,
                )) && final(self).input().len() == 0,
            !(old(self).input().len() > 0 && old(self).selected() is Some) ==> final(self).timelines()
                == old(self).timelines() && final(self).input() == old(self).input(),
            final(self).selected() == old(self).selected(),
            final(self).chat_list() == old(self).chat_list(),
            final(self).typing() == old(self).typing(),
    {
        self.send_message_at(clock::now());
    }

    /// Adds a received message at the end of its chat's list.
    pub fn add_message(&mut self, msg: whatsapp::ChatMessage)
        requires
            old(self).wf(),
            content_previewable(msg.content),
        ensures
            final(self).wf(),
            exists|m: ChatMessage|
                m.id == msg.id && m.is_me == msg.is_from_me && m.content@ == content_preview(msg.content)
                    && m.timestamp == msg.timestamp && m.status == msg.status && final(self).timelines()
                    == #[trigger] pushed_under(old(self).timelines(), msg.chat.0, m),
            final(self).selected() == old(self).selected(),
            final(self).chat_list() == old(self).chat_list(),
            final(self).input() == old(self).input(),
            final(self).typing() == old(self).typing(),
    {
        let ghost key = msg.chat.0;
        let chat_key = msg.chat.0.clone();
        let m = ChatMessage::from_whatsapp(msg);
        let ghost gm = m;
        push_under(&mut self.messages, chat_key, m);
        assert(final(self).timelines() == pushed_under(old(self).timelines(), key, gm));
    }
}

/// The index of the first message of `list` with id `id`, or its length.
fn first_message_index(list: &Vec<ChatMessage>, id: &str) -> (r: usize)
    ensures
        r == message_index(list@, id@),
        r <= list@.len(),
        (r == list@.len()) == !has_message(list@, id@),
{
    let mut i: usize = 0;
    while i < list.len()
        invariant
            0 <= i <= list@.len(),
            forall|j: int| 0 <= j < i ==> #[trigger] list@[j].id@ != id@,
        decreases list@.len() - i,
    {
        if crate::text::str_eq(list[i].id.as_str(), id) {
            proof {
                let s = list@;
                assert(has_message(s, id@));
                let c = choose|c: int|
                    0 <= c < s.len() && s[c].id@ == id@ && forall|j: int| 0 <= j < c ==> #[trigger] s[j].id@ != id@;
                assert(c == i) by {
                    if c < i {
                        assert(s[c].id@ != id@);
                    }
                    if c > i {
                        assert(s[i as int].id@ != id@);
                    }
                }
            }
            return i;
        }
        i = i + 1;
    }
    i
}

/// Gives the message at `i` the status.
fn set_status_at(list: &mut Vec<ChatMessage>, i: usize, status: MessageStatus)
    requires
        i < old(list)@.len(),
    ensures
        final(list)@ == old(list)@.update(i as int, ChatMessage { status, ..old(list)@[i as int] }),
{
    let old_msg = &list[i];
    let updated = ChatMessage {
        id: old_msg.id.clone(),
        is_me: old_msg.is_me,
        content: old_msg.content.clone(),
        timestamp: old_msg.timestamp,
        status,
    };
    list.set(i, updated);
}

/// Gives the message at `i` of the list at `k` the status.
fn set_status_in_map(map: &mut StrMap<Vec<ChatMessage>>, k: usize, i: usize, status: MessageStatus)
    requires
        old(map).wf(),
        k < old(map)@.len(),
        i < old(map)@[k as int].1@.len(),
    ensures
        final(map).wf(),
        list_views(final(map)@) == list_views(old(map)@).update(
            k as int,
            (
                old(map)@[k as int].0,
                old(map)@[k as int].1@.update(i as int, ChatMessage { status, ..old(map)@[k as int].1@[i as int] }),
            ),
        ),
{
    let ghost m0 = map@;
    let list = map.value_at_mut(k);
    set_status_at(list, i, status);
    proof {
        assert(map@ == m0.update(k as int, (m0[k as int].0, *list)));
        assert(list_views(map@) =~= list_views(m0).update(
            k as int,
            (m0[k as int].0, m0[k as int].1@.update(i as int, ChatMessage { status, ..m0[k as int].1@[i as int] })),
        ));
        assert(crate::keyed::keys_distinct(map@)) by {
            assert forall|a: int, b: int| 0 <= a < map@.len() && 0 <= b < map@.len() && a != b implies map@[a].0@
                != map@[b].0@ by {
                assert(map@[a].0 == m0[a].0);
                assert(map@[b].0 == m0[b].0);
            }
        }
    }
}

/// Gives the first message with the id the status, looking through the
/// lists in order.
fn set_status_first(map: &mut StrMap<Vec<ChatMessage>>, message_id: &str, status: MessageStatus)
    requires
        old(map).wf(),
    ensures
        final(map).wf(),
        list_views(final(map)@) == status_set(list_views(old(map)@), message_id@, status),
{
    let ghost c = list_views(map@);
    let mut k: usize = 0;
    while k < map.len()
        invariant
            map.wf(),
            c == list_views(map@),
            c == list_views(old(map)@),
            c.len() == map@.len(),
            0 <= k <= c.len(),
            forall|j: int| 0 <= j < k ==> !has_message(#[trigger] c[j].1, message_id@),
        decreases c.len() - k,
    {
        assert(c[k as int].1 == map@[k as int].1@);
        let i = first_message_index(map.value_at(k), message_id);
        if i < map.value_at(k).len() {
            set_status_in_map(map, k, i, status);
            proof {
                assert(list_index(c, message_id@) == k) by {
                    assert(has_message(c[k as int].1, message_id@));
                    let q = list_index(c, message_id@);
                    if q < k {
                        assert(!has_message(c[q].1, message_id@));
                    }
                    if q > k {
                        assert(!has_message(c[k as int].1, message_id@));
                    }
                }
            }
            return;
        }
        k = k + 1;
    }
    proof {
        if exists|q: int| 0 <= q < c.len() && has_message(#[trigger] c[q].1, message_id@) {
            let q = choose|q: int| 0 <= q < c.len() && has_message(#[trigger] c[q].1, message_id@);
            assert(!has_message(c[q].1, message_id@));
        }
    }
}

impl State {
    /// Gives the first message with the id the status, looking through the
    /// chats' lists in order.
    pub fn update_message_status(&mut self, message_id: &str, status: MessageStatus)
        requires
            old(self).wf(),
        ensures
            final(self).wf(),
            final(self).timelines() == status_set(old(self).timelines(), message_id@, status),
            final(self).selected() == old(self).selected(),
            final(self).chat_list() == old(self).chat_list(),
            final(self).input() == old(self).input(),
            final(self).typing() == old(self).typing(),
    {
        set_status_first(&mut self.messages, message_id, status);
    }
}

/// The chat screen's form of a client chat.
pub open spec fn screen_chat(c: whatsapp::Chat, s: Chat) -> bool {
    &&& s.jid == c.jid
    &&& s.name == c.name
    &&& s.last_message@ == text_or_empty(c.last_message)
    &&& s.unread_count == c.unread_count
    &&& s.is_pinned == c.is_pinned
}

/// Some chat of `s` has JID `jid`.
pub open spec fn has_chat(s: Seq<Chat>, jid: Seq<char>) -> bool {
    exists|i: int| 0 <= i < s.len() && #[trigger] s[i].jid.0@ == jid
}

/// The typing states after recording `state` for `sender` in `chat`.
pub open spec fn typing_after(
    t: Seq<(String, Seq<(String, TypingState)>)>,
    chat: String,
    sender: String,
    state: TypingState,
) -> Seq<(String, Seq<(String, TypingState)>)> {
    if has_key(t, chat@) {
        let p = key_pos(t, chat@);
        t.update(p, (t[p].0, stored(t[p].1, sender, state)))
    } else {
        t.push((chat, seq![(sender, state)]))
    }
}

/// The position of the first chat of `v` with JID `jid`, if any.
fn find_screen_chat(v: &Vec<Chat>, jid: &Jid) -> (r: Option<usize>)
    ensures
        r is None <==> !has_chat(v@, jid.0@),
        r matches Some(i) ==> i < v@.len() && i == chat_index(v@, jid.0@),
{
    let mut i: usize = 0;
    while i < v.len()
        invariant
            0 <= i <= v@.len(),
            forall|j: int| 0 <= j < i ==> #[trigger] v@[j].jid.0@ != jid.0@,
        decreases v@.len() - i,
    {
        if v[i].jid == *jid {
            proof {
                let s = v@;
                assert(s[i as int].jid.0@ == jid.0@);
                let c = choose|c: int|
                    0 <= c < s.len() && s[c].jid.0@ == jid.0@ && forall|j: int| 0 <= j < c ==> #[trigger] s[j].jid.0@
                        != jid.0@;
                assert(c == i) by {
                    if c < i {
                        assert(s[c].jid.0@ != jid.0@);
                    }
                    if c > i {
                        assert(s[i as int].jid.0@ != jid.0@);
                    }
                }
            }
            return Some(i);
        }
        i = i + 1;
    }
    None
}

impl State {
    /// Replaces the chats with the screen's form of the client's chats.
    pub fn set_chats(&mut self, chats: Vec<whatsapp::Chat>)
        ensures
            final(self).chat_list().len() == chats@.len(),
            forall|i: int| 0 <= i < chats@.len() ==> screen_chat(chats@[i], #[trigger] final(self).chat_list()[i]),
            final(self).selected() == old(self).selected(),
            final(self).timelines() == old(self).timelines(),
            final(self).input() == old(self).input(),
            final(self).typing() == old(self).typing(),
            final(self).wf() == old(self).wf(),
    {
        let ghost src = chats@;
        let mut rest = chats;
        let mut converted: Vec<Chat> = Vec::new();
        while rest.len() > 0
            invariant
                converted@.len() + rest@.len() == src.len(),
                rest@ == src.skip(converted@.len() as int),
                forall|i: int| 0 <= i < converted@.len() ==> screen_chat(src[i], #[trigger] converted@[i]),
            decreases rest@.len(),
        {
            let ghost k = converted@.len() as int;
            let c = rest.remove(0);
            assert(c == src[k]);
            converted.push(Chat::from_whatsapp(c));
            assert(rest@ =~= src.skip(converted@.len() as int));
        }
        self.chats = converted;
    }

    /// Replaces the first chat with the chat's JID, or appends the chat.
    pub fn update_chat(&mut self, chat: whatsapp::Chat)
        ensures
            exists|s: Chat|
                #[trigger] screen_chat(chat, s) && (has_chat(old(self).chat_list(), chat.jid.0@) ==> final(self).chat_list()
                    == old(self).chat_list().update(chat_index(old(self).chat_list(), chat.jid.0@), s)) && (!has_chat(
                    old(self).chat_list(),
                    chat.jid.0@,
                ) ==> final(self).chat_list() == old(self).chat_list().push(s)),
            final(self).selected() == old(self).selected(),
            final(self).timelines() == old(self).timelines(),
            final(self).input() == old(self).input(),
            final(self).typing() == old(self).typing(),
            final(self).wf() == old(self).wf(),
    {
        let ghost gc = chat;
        let c = Chat::from_whatsapp(chat);
        let ghost gs = c;
        match find_screen_chat(&self.chats, &c.jid) {
            Some(i) => {
                self.chats.set(i, c);
            },
            None => {
                self.chats.push(c);
            },
        }
        assert(screen_chat(gc, gs));
    }

    /// Records the typing state of a sender in a chat.
    pub fn set_typing(&mut self, chat_jid: Jid, sender_jid: Jid, state: TypingState)
        requires
            old(self).wf(),
        ensures
            final(self).wf(),
            final(self).typing() == typing_after(old(self).typing(), chat_jid.0, sender_jid.0, state),
            final(self).selected() == old(self).selected(),
            final(self).chat_list() == old(self).chat_list(),
            final(self).timelines() == old(self).timelines(),
            final(self).input() == old(self).input(),
    {
        let ghost t0 = self.typing_indicators@;
        let ghost tv = self.typing();
        proof {
            crate::keyed::lemma_map_vals(t0, |m: StrMap<TypingState>| m@, chat_jid.0@);
            assert(tv =~= crate::keyed::map_vals(t0, |m: StrMap<TypingState>| m@));
        }
        match self.typing_indicators.find(chat_jid.0.as_str()) {
            Some(i) => {
                proof {
                    crate::keyed::lemma_key_pos_unique(t0, i as int);
                }
                let inner = self.typing_indicators.value_at_mut(i);
                proof {
                    assert(t0[i as int].1.wf());
                }
                let ghost before = inner@;
                inner.insert(sender_jid.0, state);
                proof {
                    assert(self.typing_indicators@ == t0.update(i as int, (t0[i as int].0, *inner)));
                    assert(self.typing() =~= tv.update(i as int, (tv[i as int].0, stored(before, sender_jid.0, state))));
                    assert(crate::keyed::keys_distinct(self.typing_indicators@)) by {
                        assert forall|a: int, b: int|
                            0 <= a < self.typing_indicators@.len() && 0 <= b < self.typing_indicators@.len() && a != b
                                implies self.typing_indicators@[a].0@ != self.typing_indicators@[b].0@ by {
                            assert(self.typing_indicators@[a].0 == t0[a].0);
                            assert(self.typing_indicators@[b].0 == t0[b].0);
                        }
                    }
                    assert forall|j: int| 0 <= j < self.typing_indicators@.len() implies (
                    #[trigger] self.typing_indicators@[j]).1.wf() by {
                        if j != i {
                            assert(self.typing_indicators@[j] == t0[j]);
                        }
                    }
                }
            },
            None => {
                let mut inner: StrMap<TypingState> = StrMap::new();
                let ghost key = sender_jid.0;
                inner.insert(sender_jid.0, state);
                proof {
                    assert(inner@ =~= seq![(key, state)]);
                }
                let ghost chat_key = chat_jid.0;
                self.typing_indicators.push_new(chat_jid.0, inner);
                proof {
                    assert(self.typing() =~= tv.push((chat_key, seq![(key, state)])));
                    assert forall|j: int| 0 <= j < self.typing_indicators@.len() implies (
                    #[trigger] self.typing_indicators@[j]).1.wf() by {
                        if j < t0.len() {
                            assert(self.typing_indicators@[j] == t0[j]);
                        }
                    }
                }
            },
        }
    }

    /// The typing states of the senders of a chat, if any were recorded.
    pub fn get_typing(&self, chat_jid: &Jid) -> (r: Option<&StrMap<TypingState>>)
        requires
            self.wf(),
        ensures
            r is Some <==> has_key(self.typing(), chat_jid.0@),
            r matches Some(m) ==> lookup(self.typing(), chat_jid.0@) == Some(m@) && m.wf(),
    {
        proof {
            crate::keyed::lemma_map_vals(self.typing_indicators@, |m: StrMap<TypingState>| m@, chat_jid.0@);
            assert(self.typing() =~= crate::keyed::map_vals(self.typing_indicators@, |m: StrMap<TypingState>| m@));
        }
        match self.typing_indicators.find(chat_jid.0.as_str()) {
            Some(i) => {
                proof {
                    assert(self.typing_indicators@[i as int].1.wf());
                }
                Some(self.typing_indicators.value_at(i))
            },
            None => None,
        }
    }
}

impl Default for State {
    fn default() -> (r: Self)
        ensures
            r.wf(),
            r.chat_list().len() == 0,
            r.selected() is None,
            r.timelines().len() == 0,
            r.input().len() == 0,
            r.typing().len() == 0,
    {
        State::new()
    }
}

impl State {
    /// The chats, in order.
    pub fn chats(&self) -> (r: &[Chat])
        ensures
            r@ == self.chat_list(),
    {
        self.chats.as_slice()
    }

    /// The selected chat.
    pub fn selected_chat(&self) -> (r: Option<&Jid>)
        ensures
            r == match self.selected() {
                Some(j) => Some(&j),
                None => None::<&Jid>,
            },
    {
        match &self.selected_chat {
            Some(j) => Some(j),
            None => None,
        }
    }

    /// The typed text.
    pub fn input_value(&self) -> (r: &str)
        ensures
            r@ == self.input(),
    {
        self.input_value.as_str()
    }

    /// The messages of a chat (none when it has none).
    pub fn messages_of(&self, chat_jid: &Jid) -> (r: &[ChatMessage])
        requires
            self.wf(),
        ensures
            r@ == match lookup(self.timelines(), chat_jid.0@) {
                Some(l) => l,
                None => Seq::empty(),
            },
    {
        proof {
            crate::keyed::lemma_map_vals(self.messages@, |v: Vec<ChatMessage>| v@, chat_jid.0@);
        }
        match self.messages.get(chat_jid.0.as_str()) {
            Some(l) => l.as_slice(),
            None => &[],
        }
    }
}

} // verus!
