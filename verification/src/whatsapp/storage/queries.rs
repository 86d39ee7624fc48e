//! Turning the rows read from the store into chats and messages.

use vstd::prelude::*;
use crate::clock::{chrono_accepts_millis, from_millis, Timestamp};
use crate::keyed::{has_key, keys_distinct, lookup, lemma_stored_distinct, lemma_stored_other, stored, value_of, StrMap};
use crate::rpc::types::{group_marker, jid_normalized_user};
use crate::text::{chars_of, contains_chars, contains_seq, cut_at_char};
use crate::whatsapp::storage::models::{status_from_str, status_of_text, StoredMessage};
use crate::whatsapp::types::{Chat, Jid};

verus! {

/// The user part of a JID, without server and device suffix.
pub fn normalize_user_from_jid(jid: &str) -> (r: String)
    ensures
        r@ == jid_normalized_user(jid@),
{
    let user = cut_at_char(jid, '@');
    cut_at_char(user.as_str(), ':')
}

/// The contact names after reading the rows in order: a later row for a user
/// replaces the name of an earlier one.
pub open spec fn names_after(rows: Seq<(String, String)>) -> Seq<(String, String)>
    decreases rows.len(),
{
    if rows.len() == 0 {
        Seq::empty()
    } else {
        stored(names_after(rows.drop_last()), rows.last().0, rows.last().1)
    }
}

/// The value of the last row with key `k`, if any.
pub open spec fn last_value_for(rows: Seq<(String, String)>, k: Seq<char>) -> Option<String>
    decreases rows.len(),
{
    if rows.len() == 0 {
        None
    } else if rows.last().0@ == k {
        Some(rows.last().1)
    } else {
        last_value_for(rows.drop_last(), k)
    }
}

/// Reading rows into a map keeps its keys distinct.
proof fn lemma_names_after_distinct(rows: Seq<(String, String)>)
    ensures
        keys_distinct(names_after(rows)),
    decreases rows.len(),
{
    if rows.len() > 0 {
        lemma_names_after_distinct(rows.drop_last());
        lemma_stored_distinct(names_after(rows.drop_last()), rows.last().0, rows.last().1);
    }
}

/// The name kept for a user is the one of the last row for that user.
pub proof fn lemma_names_after_last_wins(rows: Seq<(String, String)>, k: Seq<char>)
    ensures
        lookup(names_after(rows), k) == last_value_for(rows, k),
    decreases rows.len(),
{
    if rows.len() > 0 {
        let prev = names_after(rows.drop_last());
        lemma_names_after_distinct(rows.drop_last());
        lemma_names_after_last_wins(rows.drop_last(), k);
        if rows.last().0@ == k {
            lemma_stored_distinct(prev, rows.last().0, rows.last().1);
        } else {
            lemma_stored_other(prev, rows.last().0, rows.last().1, k);
        }
    }
}

/// The contact names of the rows `(user, name)`, in the order read.
pub fn contact_map_from_rows(rows: Vec<(String, String)>) -> (r: StrMap<String>)
    ensures
        r.wf(),
        r@ == names_after(rows@),
{
    let mut map: StrMap<String> = StrMap::new();
    let mut rest = rows;
    let ghost all = rest@;
    let total = rest.len();
    let mut taken: usize = 0;
    while rest.len() > 0
        invariant
            map.wf(),
            all.len() == total,
            taken + rest@.len() == all.len(),
            rest@ == all.skip(taken as int),
            map@ == names_after(all.take(taken as int)),
        decreases rest@.len(),
    {
        let (user, name) = rest.remove(0);
        assert(all.take(taken + 1).drop_last() == all.take(taken as int));
        assert(all.take(taken + 1).last() == all[taken as int]);
        map.insert(user, name);
        taken = taken + 1;
        assert(rest@ == all.skip(taken as int));
    }
    assert(all.take(taken as int) == all);
    map
}

/// A row of the chats table.
#[derive(Debug, Clone)]
pub struct ChatRow {
    pub jid: String,
    pub name: String,
    pub last_message: Option<String>,
    pub last_activity_ms: Option<i64>,
    pub is_group: i64,
    pub unread_count: u32,
    pub is_muted: i64,
    pub is_pinned: i64,
}

/// The name shown for a stored chat: for a chat that is not a group, the
/// contact name recorded for its user when there is one.
pub open spec fn stored_chat_name(jid: Seq<char>, name: String, contacts: Seq<(String, String)>) -> String {
    if !contains_seq(jid, group_marker()) && has_key(contacts, jid_normalized_user(jid)) {
        value_of(contacts, jid_normalized_user(jid))
    } else {
        name
    }
}

/// The instant of an optional millisecond count.
pub open spec fn activity_of(ms: Option<i64>) -> Option<Timestamp> {
    match ms {
        Some(m) => if chrono_accepts_millis(m) {
            Some((m * 1_000_000) as i128)
        } else {
            None
        },
        None => None,
    }
}

/// The chat that a row of the chats table stands for.
pub fn chat_from_row(row: ChatRow, contacts: &StrMap<String>) -> (r: Chat)
    requires
        contacts.wf(),
    ensures
        r.jid.0 == row.jid,
        r.name == stored_chat_name(row.jid@, row.name, contacts@),
        r.last_message == row.last_message,
        r.last_activity == activity_of(row.last_activity_ms),
        r.is_group == (row.is_group != 0),
        r.unread_count == row.unread_count,
        r.is_muted == (row.is_muted != 0),
        r.is_pinned == (row.is_pinned != 0),
{
    let jid_chars = chars_of(row.jid.as_str());
    let marker: Vec<char> = vec!['@', 'g', '.', 'u', 's'];
    assert(marker@ == group_marker());
    let is_group_jid = contains_chars(jid_chars.as_slice(), marker.as_slice());
    let mut name = row.name;
    if !is_group_jid {
        let normalized = normalize_user_from_jid(row.jid.as_str());
        match contacts.get(normalized.as_str()) {
            Some(contact_name) => {
                name = contact_name.clone();
            },
            None => {},
        }
    }
    let last_activity = match row.last_activity_ms {
        Some(ms) => from_millis(ms),
        None => None,
    };
    Chat {
        jid: Jid(row.jid),
        name,
        last_message: row.last_message,
        last_activity,
        is_group: row.is_group != 0,
        unread_count: row.unread_count,
        is_muted: row.is_muted != 0,
        is_pinned: row.is_pinned != 0,
    }
}

/// A row of the messages table.
#[derive(Debug, Clone)]
pub struct MessageRow {
    pub chat_jid: String,
    pub message_id: String,
    pub sender_jid: String,
    pub is_from_me: i64,
    pub timestamp_ms: i64,
    pub status: String,
    pub raw_message: Vec<u8>,
}

/// The stored message that a row of the messages table stands for.
pub fn message_from_row(row: MessageRow) -> (r: StoredMessage)
    ensures
        r.chat_jid == row.chat_jid,
        r.message_id == row.message_id,
        r.sender_jid == row.sender_jid,
        r.is_from_me == (row.is_from_me != 0),
        r.timestamp_ms == row.timestamp_ms,
        r.status == status_of_text(row.status@),
        r.raw_message@ == row.raw_message@,
{
    let status = status_from_str(row.status.as_str());
    StoredMessage {
        chat_jid: row.chat_jid,
        message_id: row.message_id,
        sender_jid: row.sender_jid,
        is_from_me: row.is_from_me != 0,
        timestamp_ms: row.timestamp_ms,
        status,
        raw_message: row.raw_message,
    }
}

} // verus!
