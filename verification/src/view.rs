//! What the screens show that is computed rather than laid out: the order of
//! the chat list, the sync banner, the text of a message bubble and the
//! typing line.

use vstd::prelude::*;
use crate::clock::Timestamp;
use crate::model::cache::{lemma_stable_sort_orders, sort_stably, stable_sort, SortKey};
use crate::model::chat::Chat;
use crate::text::{chars_of, decimal_string, decimal_text, string_from};
use crate::whatsapp::{MessageStatus, TypingState};

verus! {

/// The rank of an activity time: no time ranks lowest, later times higher.
pub open spec fn activity_rank(t: Option<Timestamp>) -> int {
    match t {
        Some(x) => x + 0x1_0000_0000_0000_0000_0000_0000_0000_0000,
        None => 0,
    }
}

/// The rank of a chat in the list: pinned chats above the others, then the
/// most recently active first.
pub open spec fn chat_rank(c: Chat) -> int {
    (if c.is_pinned {
        0x2_0000_0000_0000_0000_0000_0000_0000_0000int
    } else {
        0int
    }) + activity_rank(c.last_activity)
}

impl SortKey for Chat {
    /// Chats are listed by falling rank.
    open spec fn order_key(&self) -> int {
        -chat_rank(*self)
    }

    fn not_after(&self, other: &Self) -> (r: bool) {
        if self.is_pinned != other.is_pinned {
            self.is_pinned
        } else {
            match (self.last_activity, other.last_activity) {
                (Some(a), Some(b)) => a >= b,
                (Some(_), None) => true,
                (None, Some(_)) => false,
                (None, None) => true,
            }
        }
    }
}

/// The chats in the order the chat list shows them: pinned chats first,
/// then the most recently active first; chats that rank equal keep their order.
pub fn sidebar_chats(chats: &[Chat]) -> (r: Vec<Chat>)
    ensures
        r@ == stable_sort(chats@),
{
    let mut copies: Vec<Chat> = Vec::new();
    let mut i: usize = 0;
    while i < chats.len()
        invariant
            0 <= i <= chats@.len(),
            copies@ == chats@.take(i as int),
        decreases chats@.len() - i,
    {
        copies.push(chats[i].clone());
        assert(copies@ == chats@.take(i + 1));
        i = i + 1;
    }
    assert(chats@.take(chats@.len() as int) =~= chats@);
    sort_stably(copies)
}

/// In the chat list, pinned chats come before the others, and among chats
/// that are both pinned or both not, a chat with an activity time comes
/// before one without, and a later time before an earlier one.
pub proof fn lemma_sidebar_order(chats: Seq<Chat>, i: int, j: int)
    requires
        0 <= i < j < chats.len(),
    ensures
        ({
            let s = stable_sort(chats);
            &&& s[j].is_pinned ==> s[i].is_pinned
            &&& (s[i].is_pinned == s[j].is_pinned && s[j].last_activity is Some) ==> s[i].last_activity is Some
            &&& (s[i].is_pinned == s[j].is_pinned && s[i].last_activity is Some && s[j].last_activity is Some)
                ==> s[i].last_activity->0 >= s[j].last_activity->0
        }),
{
    lemma_stable_sort_orders(chats);
    let s = stable_sort(chats);
    assert(s.len() == chats.len()) by {
        assert(s.to_multiset().len() == chats.to_multiset().len());
        vstd::seq_lib::to_multiset_len(s);
        vstd::seq_lib::to_multiset_len(chats);
    }
    assert(s[i].order_key() <= s[j].order_key());
}

/// `Syncing chats: `, the start of the sync banner.
pub open spec fn syncing_prefix() -> Seq<char> {
    seq!['S', 'y', 'n', 'c', 'i', 'n', 'g', ' ', 'c', 'h', 'a', 't', 's', ':', ' ']
}

/// The sync banner: the count, and the total when it is known.
pub open spec fn sync_text(current: u32, total: u32) -> Seq<char> {
    if total > 0 {
        syncing_prefix() + decimal_text(current as int) + seq!['/'] + decimal_text(total as int)
    } else {
        syncing_prefix() + decimal_text(current as int)
    }
}

/// The text of the sync banner.
pub fn sync_label(current: u32, total: u32) -> (r: String)
    ensures
        r@ == sync_text(current, total),
{
    let mut v: Vec<char> = vec!['S', 'y', 'n', 'c', 'i', 'n', 'g', ' ', 'c', 'h', 'a', 't', 's', ':', ' '];
    let c = decimal_string(current as i64);
    let mut cv = chars_of(c.as_str());
    v.append(&mut cv);
    if total > 0 {
        v.push('/');
        let t = decimal_string(total as i64);
        let mut tv = chars_of(t.as_str());
        v.append(&mut tv);
    }
    string_from(v)
}

/// The mark shown after one of our messages for its status.
pub open spec fn status_mark(status: MessageStatus) -> Seq<char> {
    match status {
        MessageStatus::Pending => seq![' ', '\u{23F3}'],
        MessageStatus::Sent => seq![' ', '\u{2713}'],
        MessageStatus::Delivered => seq![' ', '\u{2713}', '\u{2713}'],
        MessageStatus::Read => seq![' ', '\u{2713}', '\u{2713}'],
        MessageStatus::Failed => seq![' ', '\u{274C}'],
    }
}

/// The text of a message bubble: the content, with the status mark when
/// the message is ours.
pub fn bubble_text(content: &str, is_me: bool, status: MessageStatus) -> (r: String)
    ensures
        r@ == content@ + (if is_me {
            status_mark(status)
        } else {
            Seq::empty()
        }),
{
    let mut v = chars_of(content);
    if is_me {
        let mut mark: Vec<char> = match status {
            MessageStatus::Pending => vec![' ', '\u{23F3}'],
            MessageStatus::Sent => vec![' ', '\u{2713}'],
            MessageStatus::Delivered => vec![' ', '\u{2713}', '\u{2713}'],
            MessageStatus::Read => vec![' ', '\u{2713}', '\u{2713}'],
            MessageStatus::Failed => vec![' ', '\u{274C}'],
        };
        assert(mark@ == status_mark(status));
        v.append(&mut mark);
    } else {
        assert(v@ + Seq::<char>::empty() == v@);
    }
    string_from(v)
}

/// The line shown while someone types or records (empty when idle).
pub open spec fn typing_text(state: TypingState) -> Seq<char> {
    match state {
        TypingState::Typing => seq!['t', 'y', 'p', 'i', 'n', 'g', '.', '.', '.'],
        TypingState::Recording => seq![
            'r', 'e', 'c', 'o', 'r', 'd', 'i', 'n', 'g', ' ', 'a', 'u', 'd', 'i', 'o', '.', '.', '.',
        ],
        TypingState::Idle => Seq::empty(),
    }
}

/// The typing line.
pub fn typing_label(state: TypingState) -> (r: String)
    ensures
        r@ == typing_text(state),
{
    let v: Vec<char> = match state {
        TypingState::Typing => vec!['t', 'y', 'p', 'i', 'n', 'g', '.', '.', '.'],
        TypingState::Recording => vec![
            'r', 'e', 'c', 'o', 'r', 'd', 'i', 'n', 'g', ' ', 'a', 'u', 'd', 'i', 'o', '.', '.', '.',
        ],
        TypingState::Idle => Vec::new(),
    };
    string_from(v)
}

/// The mark shown after one of our messages in the model's chat view.
pub open spec fn model_status_mark(status: crate::model::MessageStatus) -> Seq<char> {
    match status {
        crate::model::MessageStatus::Pending => seq![' ', '\u{23F3}'],
        crate::model::MessageStatus::Sent => seq![' ', '\u{2713}'],
        crate::model::MessageStatus::Delivered => seq![' ', '\u{2713}', '\u{2713}'],
        crate::model::MessageStatus::Read => seq![' ', '\u{2713}', '\u{2713}'],
        crate::model::MessageStatus::Failed => seq![' ', '\u{274C}'],
    }
}

/// The text of a message bubble of the model's chat view.
pub fn model_bubble_text(content: &str, is_me: bool, status: crate::model::MessageStatus) -> (r: String)
    ensures
        r@ == content@ + (if is_me {
            model_status_mark(status)
        } else {
            Seq::empty()
        }),
{
    let mut v = chars_of(content);
    if is_me {
        let mut mark: Vec<char> = match status {
            crate::model::MessageStatus::Pending => vec![' ', '\u{23F3}'],
            crate::model::MessageStatus::Sent => vec![' ', '\u{2713}'],
            crate::model::MessageStatus::Delivered => vec![' ', '\u{2713}', '\u{2713}'],
            crate::model::MessageStatus::Read => vec![' ', '\u{2713}', '\u{2713}'],
            crate::model::MessageStatus::Failed => vec![' ', '\u{274C}'],
        };
        assert(mark@ == model_status_mark(status));
        v.append(&mut mark);
    } else {
        assert(v@ + Seq::<char>::empty() == v@);
    }
    string_from(v)
}

/// The typing line of the model's chat view.
pub fn model_typing_label(state: crate::model::TypingState) -> (r: String)
    ensures
        r@ == typing_text(
            match state {
                crate::model::TypingState::Idle => TypingState::Idle,
                crate::model::TypingState::Typing => TypingState::Typing,
                crate::model::TypingState::Recording => TypingState::Recording,
            },
        ),
{
    match state {
        crate::model::TypingState::Idle => typing_label(TypingState::Idle),
        crate::model::TypingState::Typing => typing_label(TypingState::Typing),
        crate::model::TypingState::Recording => typing_label(TypingState::Recording),
    }
}

impl SortKey for crate::app_core::types::Chat {
    /// On the chat screen, pinned chats come first.
    open spec fn order_key(&self) -> int {
        if self.is_pinned {
            0
        } else {
            1
        }
    }

    fn not_after(&self, other: &Self) -> (r: bool) {
        self.is_pinned || !other.is_pinned
    }
}

/// The chats in the order the chat screen lists them: pinned chats first,
/// otherwise in the order given.
pub fn screen_chats(chats: &[crate::app_core::types::Chat]) -> (r: Vec<crate::app_core::types::Chat>)
    ensures
        r@ == stable_sort(chats@),
{
    let mut copies: Vec<crate::app_core::types::Chat> = Vec::new();
    let mut i: usize = 0;
    while i < chats.len()
        invariant
            0 <= i <= chats@.len(),
            copies@ == chats@.take(i as int),
        decreases chats@.len() - i,
    {
        copies.push(chats[i].clone());
        assert(copies@ == chats@.take(i + 1));
        i = i + 1;
    }
    assert(chats@.take(chats@.len() as int) =~= chats@);
    sort_stably(copies)
}

/// The typing line says `typing...` while someone types and `recording
/// audio...` while someone records, and is empty when all are idle.
pub proof fn lemma_typing_lines(state: TypingState)
    ensures
        state is Idle <==> typing_text(state).len() == 0,
        state is Typing ==> typing_text(state) == seq!['t', 'y', 'p', 'i', 'n', 'g', '.', '.', '.'],
        state is Recording ==> typing_text(state) == seq![
            'r', 'e', 'c', 'o', 'r', 'd', 'i', 'n', 'g', ' ', 'a', 'u', 'd', 'i', 'o', '.', '.', '.',
        ],
{
}

/// The mark after one of our messages: an hourglass while pending, one
/// check once sent, two once delivered or read, a cross when it failed.
pub proof fn lemma_status_marks(status: MessageStatus)
    ensures
        status is Pending ==> status_mark(status) == seq![' ', '\u{23F3}'],
        status is Sent ==> status_mark(status) == seq![' ', '\u{2713}'],
        status is Delivered || status is Read ==> status_mark(status) == seq![' ', '\u{2713}', '\u{2713}'],
        status is Failed ==> status_mark(status) == seq![' ', '\u{274C}'],
{
}

} // verus!
