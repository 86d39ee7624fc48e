//! Types carried over the service boundary.

use vstd::prelude::*;
use crate::clock::Timestamp;
use crate::text::{chars_of, contains_chars, contains_seq, cut_at, cut_at_char, string_from};

verus! {

/// A WhatsApp JID (Jabber ID), such as `123@s.whatsapp.net` or `456@g.us`.
#[derive(Debug, Hash)]
pub struct Jid(pub String);

impl Clone for Jid {
    fn clone(&self) -> (r: Self)
        ensures
            r == *self,
    {
        Jid(self.0.clone())
    }
}

impl PartialEq for Jid {
    fn eq(&self, other: &Self) -> (r: bool) {
        self.0 == other.0
    }
}

impl Eq for Jid {
}

impl vstd::std_specs::cmp::PartialEqSpecImpl for Jid {
    open spec fn obeys_eq_spec() -> bool {
        true
    }

    open spec fn eq_spec(&self, other: &Jid) -> bool {
        self.0@ == other.0@
    }
}

/// The user part of a JID: what comes before the first `@`.
pub open spec fn jid_user(s: Seq<char>) -> Seq<char> {
    cut_at(s, '@')
}

/// The user part with any device suffix (after `:`) removed.
pub open spec fn jid_normalized_user(s: Seq<char>) -> Seq<char> {
    cut_at(jid_user(s), ':')
}

/// The user part of a JID is a prefix of it without `@`, and the normalized
/// user is a prefix of the user part without `:` (so also without `@`).
pub proof fn lemma_jid_parts_prefixes(s: Seq<char>)
    ensures
        jid_user(s) == s.take(jid_user(s).len() as int),
        !jid_user(s).contains('@'),
        jid_normalized_user(s) == jid_user(s).take(jid_normalized_user(s).len() as int),
        !jid_normalized_user(s).contains(':'),
        !jid_normalized_user(s).contains('@'),
{
    crate::text::lemma_cut_at(s, '@');
    crate::text::lemma_cut_at(jid_user(s), ':');
    let n = jid_normalized_user(s);
    if n.contains('@') {
        let k = choose|k: int| 0 <= k < n.len() && n[k] == '@';
        assert(jid_user(s)[k] == '@');
    }
}

/// The user part of `user@server` is `user`, and its normalized user drops
/// a device suffix: the normalized user of `user:device@server` is `user`
/// (for a user without `@` or `:` and a device without `@`).
pub proof fn lemma_jid_user_of_parts(user: Seq<char>, device: Seq<char>, server: Seq<char>)
    requires
        !user.contains('@'),
        !user.contains(':'),
        !device.contains('@'),
    ensures
        jid_user(user + seq!['@'] + server) == user,
        jid_normalized_user(user + seq!['@'] + server) == user,
        jid_normalized_user(user + seq![':'] + device + seq!['@'] + server) == user,
{
    crate::text::lemma_cut_at_first(user, '@', server);
    crate::text::lemma_cut_at_first(user, ':', Seq::empty());
    assert(user + seq![':'] + Seq::<char>::empty() =~= user + seq![':']);
    let ud = user + seq![':'] + device;
    assert(!ud.contains('@')) by {
        if ud.contains('@') {
            let k = choose|k: int| 0 <= k < ud.len() && ud[k] == '@';
            if k < user.len() {
                assert(user[k] == '@');
                assert(user.contains(user[k]));
            } else if k > user.len() {
                assert(device[k - user.len() - 1] == '@');
                assert(device.contains(device[k - user.len() - 1]));
            }
        }
    }
    assert(user + seq![':'] + device + seq!['@'] + server =~= ud + seq!['@'] + server);
    crate::text::lemma_cut_at_first(ud, '@', server);
    crate::text::lemma_cut_at_first(user, ':', device);
    crate::text::lemma_cut_at(user, ':');
}

/// The marker that group JIDs carry.
pub open spec fn group_marker() -> Seq<char> {
    seq!['@', 'g', '.', 'u', 's']
}

impl Jid {
    pub fn new(jid: String) -> (r: Jid)
        ensures
            r.0@ == jid@,
    {
        Jid(jid)
    }

    /// The user part of the JID (before the first `@`).
    pub fn user(&self) -> (r: String)
        ensures
            r@ == jid_user(self.0@),
    {
        cut_at_char(self.0.as_str(), '@')
    }

    /// The user part without a device suffix.
    pub fn normalized_user(&self) -> (r: String)
        ensures
            r@ == jid_normalized_user(self.0@),
    {
        let u = self.user();
        cut_at_char(u.as_str(), ':')
    }

    /// The label shown for a JID that has no name.
    pub fn display_label(&self) -> (r: String)
        ensures
            r@ == jid_normalized_user(self.0@),
    {
        self.normalized_user()
    }

    /// Whether this is a group JID.
    pub fn is_group(&self) -> (r: bool)
        ensures
            r == contains_seq(self.0@, group_marker()),
    {
        let v = chars_of(self.0.as_str());
        let marker: Vec<char> = vec!['@', 'g', '.', 'u', 's'];
        assert(marker@ == group_marker());
        contains_chars(v.as_slice(), marker.as_slice())
    }
}


/// A copy of an optional string.
pub fn clone_opt_string(s: &Option<String>) -> (r: Option<String>)
    ensures
        r == *s,
{
    match s {
        Some(t) => Some(t.clone()),
        None => None,
    }
}

/// A copy of an optional byte buffer.
pub fn clone_opt_bytes(b: &Option<Vec<u8>>) -> (r: Option<Vec<u8>>)
    ensures
        r matches Some(v) ==> b matches Some(w) && v@ == w@,
        r is None <==> b is None,
{
    match b {
        Some(v) => Some(v.clone()),
        None => None,
    }
}

/// A chat/conversation in WhatsApp.
#[derive(Debug)]
pub struct Chat {
    pub jid: Jid,
    pub name: String,
    pub last_message: Option<String>,
    pub last_activity: Option<Timestamp>,
    pub is_group: bool,
    pub unread_count: u32,
    pub is_muted: bool,
    pub is_pinned: bool,
}

impl Clone for Chat {
    fn clone(&self) -> (r: Self)
        ensures
            r == *self,
    {
        Chat {
            jid: self.jid.clone(),
            name: self.name.clone(),
            last_message: clone_opt_string(&self.last_message),
            last_activity: self.last_activity,
            is_group: self.is_group,
            unread_count: self.unread_count,
            is_muted: self.is_muted,
            is_pinned: self.is_pinned,
        }
    }
}

impl Chat {
    /// A chat with no messages yet; group chats are recognized by their JID.
    pub fn new(jid: Jid, name: String) -> (r: Chat)
        ensures
            r.jid == jid,
            r.name == name,
            r.last_message is None,
            r.last_activity is None,
            r.is_group == contains_seq(jid.0@, group_marker()),
            r.unread_count == 0,
            !r.is_muted,
            !r.is_pinned,
    {
        let is_group = jid.is_group();
        Chat {
            jid,
            name,
            last_message: None,
            last_activity: None,
            is_group,
            unread_count: 0,
            is_muted: false,
            is_pinned: false,
        }
    }
}

/// Content of a message. The coordinates of a location are kept as the
/// IEEE-754 bit patterns of their `f64` values.
#[derive(Debug, Clone)]
pub enum MessageContent {
    Text(String),
    Image { caption: Option<String>, url: Option<String>, thumbnail: Option<Vec<u8>> },
    Video { caption: Option<String>, url: Option<String>, thumbnail: Option<Vec<u8>> },
    Audio { url: Option<String>, duration_secs: u32, is_voice_note: bool },
    Document { filename: String, url: Option<String>, mime_type: Option<String> },
    Sticker { url: Option<String> },
    Location { latitude_bits: u64, longitude_bits: u64, name: Option<String> },
    Contact { display_name: String, vcard: String },
    System(String),
    Unknown,
}

/// A message in a chat.
#[derive(Debug)]
pub struct ChatMessage {
    pub id: String,
    pub sender: Jid,
    pub chat: Jid,
    pub content: MessageContent,
    pub timestamp: Timestamp,
    pub is_from_me: bool,
    pub status: MessageStatus,
    pub quoted_message: Option<Box<ChatMessage>>,
}

impl Clone for ChatMessage {
    fn clone(&self) -> (r: Self)
        ensures
            r.id == self.id,
            r.sender == self.sender,
            r.chat == self.chat,
            r.timestamp == self.timestamp,
            r.is_from_me == self.is_from_me,
            r.status == self.status,
        decreases self,
    {
        let quoted_message = match &self.quoted_message {
            Some(q) => Some(Box::new((**q).clone())),
            None => None,
        };
        ChatMessage {
            id: self.id.clone(),
            sender: self.sender.clone(),
            chat: self.chat.clone(),
            content: self.content.clone(),
            timestamp: self.timestamp,
            is_from_me: self.is_from_me,
            status: self.status,
            quoted_message,
        }
    }
}

/// Message delivery/read status.
#[derive(Debug, Clone, Copy, PartialEq, Eq, Structural)]
pub enum MessageStatus {
    Pending,
    Sent,
    Delivered,
    Read,
    Failed,
}

/// Connection state of the WhatsApp client.
#[derive(Debug, Clone, PartialEq, Eq)]
pub enum ConnectionState {
    Disconnected,
    Connecting,
    WaitingForQr { qr_code: String },
    WaitingForPairCode { code: String },
    Connected,
    Reconnecting,
    LoggedOut,
}

impl ConnectionState {
    /// Connected and authenticated.
    pub fn is_connected(&self) -> (r: bool)
        ensures
            r == (*self is Connected),
    {
        match self {
            ConnectionState::Connected => true,
            _ => false,
        }
    }

    /// The user has to pair (or the client is not connected at all).
    pub fn needs_pairing(&self) -> (r: bool)
        ensures
            r == (*self is Disconnected || *self is WaitingForQr || *self is WaitingForPairCode
                || *self is LoggedOut),
    {
        match self {
            ConnectionState::Disconnected => true,
            ConnectionState::WaitingForQr { .. } => true,
            ConnectionState::WaitingForPairCode { .. } => true,
            ConnectionState::LoggedOut => true,
            _ => false,
        }
    }
}

/// Typing indicator state.
#[derive(Debug, Clone, Copy, PartialEq, Eq, Structural)]
pub enum TypingState {
    Idle,
    Typing,
    Recording,
}

/// Presence (online/offline) information.
#[derive(Debug, Clone)]
pub struct Presence {
    pub jid: Jid,
    pub is_online: bool,
    pub last_seen: Option<Timestamp>,
}

/// `...`, appended to shortened previews.
pub open spec fn ellipsis() -> Seq<char> {
    seq!['.', '.', '.']
}

/// The preview of a text: at most 50 characters kept, longer texts are cut
/// to their first 47 characters followed by `...`.
pub open spec fn preview_text(t: Seq<char>) -> Seq<char> {
    if t.len() > 50 {
        t.take(47) + ellipsis()
    } else {
        t
    }
}

pub open spec fn photo_label() -> Seq<char> {
    seq!['\u{1F4F7}', ' ', 'P', 'h', 'o', 't', 'o']
}

pub open spec fn video_label() -> Seq<char> {
    seq!['\u{1F3A5}', ' ', 'V', 'i', 'd', 'e', 'o']
}

pub open spec fn voice_label() -> Seq<char> {
    seq!['\u{1F3A4}', ' ', 'V', 'o', 'i', 'c', 'e', ' ', 'm', 'e', 's', 's', 'a', 'g', 'e']
}

pub open spec fn audio_label() -> Seq<char> {
    seq!['\u{1F3B5}', ' ', 'A', 'u', 'd', 'i', 'o']
}

pub open spec fn document_prefix() -> Seq<char> {
    seq!['\u{1F4C4}', ' ']
}

pub open spec fn sticker_label() -> Seq<char> {
    seq!['\u{1F3AD}', ' ', 'S', 't', 'i', 'c', 'k', 'e', 'r']
}

pub open spec fn location_label() -> Seq<char> {
    seq!['\u{1F4CD}', ' ', 'L', 'o', 'c', 'a', 't', 'i', 'o', 'n']
}

pub open spec fn contact_prefix() -> Seq<char> {
    seq!['\u{1F464}', ' ']
}

pub open spec fn unsupported_label() -> Seq<char> {
    seq!['U', 'n', 's', 'u', 'p', 'p', 'o', 'r', 't', 'e', 'd', ' ', 'm', 'e', 's', 's', 'a', 'g', 'e']
}

/// The optional text, or the label when there is none.
pub open spec fn text_or(o: Option<String>, label: Seq<char>) -> Seq<char> {
    match o {
        Some(s) => s@,
        None => label,
    }
}

/// The one-line preview shown for a message.
pub open spec fn preview_of(c: MessageContent) -> Seq<char> {
    match c {
        MessageContent::Text(t) => preview_text(t@),
        MessageContent::Image { caption, .. } => text_or(caption, photo_label()),
        MessageContent::Video { caption, .. } => text_or(caption, video_label()),
        MessageContent::Audio { is_voice_note, .. } => if is_voice_note {
            voice_label()
        } else {
            audio_label()
        },
        MessageContent::Document { filename, .. } => document_prefix() + filename@,
        MessageContent::Sticker { .. } => sticker_label(),
        MessageContent::Location { name, .. } => text_or(name, location_label()),
        MessageContent::Contact { display_name, .. } => contact_prefix() + display_name@,
        MessageContent::System(t) => t@,
        MessageContent::Unknown => unsupported_label(),
    }
}

/// The text of `o`, or the given label.
fn text_or_label(o: &Option<String>, label: Vec<char>) -> (r: String)
    ensures
        r@ == text_or(*o, label@),
{
    match o {
        Some(s) => s.clone(),
        None => string_from(label),
    }
}

/// A text preview never has more than 50 characters, and a text of at most
/// 50 characters is its own preview.
pub proof fn lemma_preview_text_short(t: Seq<char>)
    ensures
        preview_text(t).len() <= 50,
        t.len() <= 50 ==> preview_text(t) == t,
{
}

/// The preview of a text.
pub fn preview_of_text(t: &str) -> (r: String)
    ensures
        r@ == preview_text(t@),
{
    let v = chars_of(t);
    if v.len() > 50 {
        let mut out: Vec<char> = Vec::new();
        let mut i: usize = 0;
        while i < 47
            invariant
                v@ == t@,
                v.len() > 50,
                0 <= i <= 47,
                out@ == v@.take(i as int),
            decreases 47 - i,
        {
            out.push(v[i]);
            assert(out@ == v@.take(i + 1));
            i = i + 1;
        }
        out.push('.');
        out.push('.');
        out.push('.');
        assert(out@ == v@.take(47) + ellipsis());
        string_from(out)
    } else {
        string_from(v)
    }
}

impl MessageContent {
    /// The one-line preview of this content.
    pub fn preview(&self) -> (r: String)
        ensures
            r@ == preview_of(*self),
    {
        match self {
            MessageContent::Text(text) => preview_of_text(text.as_str()),
            MessageContent::Image { caption, .. } => text_or_label(
                caption,
                vec!['\u{1F4F7}', ' ', 'P', 'h', 'o', 't', 'o'],
            ),
            MessageContent::Video { caption, .. } => text_or_label(
                caption,
                vec!['\u{1F3A5}', ' ', 'V', 'i', 'd', 'e', 'o'],
            ),
            MessageContent::Audio { is_voice_note, .. } => {
                if *is_voice_note {
                    string_from(
                        vec![
                            '\u{1F3A4}',
                            ' ',
                            'V',
                            'o',
                            'i',
                            'c',
                            'e',
                            ' ',
                            'm',
                            'e',
                            's',
                            's',
                            'a',
                            'g',
                            'e',
                        ],
                    )
                } else {
                    string_from(vec!['\u{1F3B5}', ' ', 'A', 'u', 'd', 'i', 'o'])
                }
            },
            MessageContent::Document { filename, .. } => {
                let mut v: Vec<char> = vec!['\u{1F4C4}', ' '];
                let mut w = chars_of(filename.as_str());
                v.append(&mut w);
                string_from(v)
            },
            MessageContent::Sticker { .. } => string_from(
                vec!['\u{1F3AD}', ' ', 'S', 't', 'i', 'c', 'k', 'e', 'r'],
            ),
            MessageContent::Location { name, .. } => text_or_label(
                name,
                vec!['\u{1F4CD}', ' ', 'L', 'o', 'c', 'a', 't', 'i', 'o', 'n'],
            ),
            MessageContent::Contact { display_name, .. } => {
                let mut v: Vec<char> = vec!['\u{1F464}', ' '];
                let mut w = chars_of(display_name.as_str());
                v.append(&mut w);
                string_from(v)
            },
            MessageContent::System(text) => text.clone(),
            MessageContent::Unknown => string_from(
                vec![
                    'U',
                    'n',
                    's',
                    'u',
                    'p',
                    'p',
                    'o',
                    'r',
                    't',
                    'e',
                    'd',
                    ' ',
                    'm',
                    'e',
                    's',
                    's',
                    'a',
                    'g',
                    'e',
                ],
            ),
        }
    }
}

/// The preview of a message: a caption or place name when it has one, else
/// the label of its kind (a voice note and other audio differ); a document
/// or contact card is shown by its name after its sign; a text of at most 50
/// characters is itself, and a longer one is cut to its first 47 characters
/// followed by `...`.
pub proof fn lemma_preview_shows_content(c: MessageContent)
    ensures
        c is Text && c->Text_0@.len() <= 50 ==> preview_of(c) == c->Text_0@,
        c is Text && c->Text_0@.len() > 50 ==> preview_of(c).len() == 50 && preview_of(c).take(47)
            == c->Text_0@.take(47) && preview_of(c).skip(47) == seq!['.', '.', '.'],
        c is Image && c->Image_caption is Some ==> preview_of(c) == c->Image_caption->0@,
        c is Image && c->Image_caption is None ==> preview_of(c) == seq!['\u{1F4F7}', ' ', 'P', 'h', 'o', 't', 'o'],
        c is Video && c->Video_caption is Some ==> preview_of(c) == c->Video_caption->0@,
        c is Video && c->Video_caption is None ==> preview_of(c) == seq!['\u{1F3A5}', ' ', 'V', 'i', 'd', 'e', 'o'],
        c is Audio && c->Audio_is_voice_note ==> preview_of(c) == seq!['\u{1F3A4}', ' ', 'V', 'o', 'i', 'c', 'e', ' ', 'm', 'e', 's', 's', 'a', 'g', 'e'],
        c is Audio && !c->Audio_is_voice_note ==> preview_of(c) == seq!['\u{1F3B5}', ' ', 'A', 'u', 'd', 'i', 'o'],
        c is Document ==> preview_of(c) == seq!['\u{1F4C4}', ' '] + c->Document_filename@,
        c is Sticker ==> preview_of(c) == seq!['\u{1F3AD}', ' ', 'S', 't', 'i', 'c', 'k', 'e', 'r'],
        c is Location && c->Location_name is Some ==> preview_of(c) == c->Location_name->0@,
        c is Location && c->Location_name is None ==> preview_of(c) == seq!['\u{1F4CD}', ' ', 'L', 'o', 'c', 'a', 't', 'i', 'o', 'n'],
        c is Contact ==> preview_of(c) == seq!['\u{1F464}', ' '] + c->Contact_display_name@,
        c is System ==> preview_of(c) == c->System_0@,
        c is Unknown ==> preview_of(c) == seq!['U', 'n', 's', 'u', 'p', 'p', 'o', 'r', 't', 'e', 'd', ' ', 'm', 'e', 's', 's', 'a', 'g', 'e'],
{
    if c is Text && c->Text_0@.len() > 50 {
        assert((c->Text_0@.take(47) + ellipsis()).take(47) =~= c->Text_0@.take(47));
        assert((c->Text_0@.take(47) + ellipsis()).skip(47) =~= ellipsis());
    }
}

} // verus!
