//! The client-side WhatsApp types: identifiers, chats, messages and states.

use vstd::prelude::*;
use vstd::string::StringSliceAdditionalSpecFns;
use vstd::utf8::{decode_utf8, encode_utf8, encode_utf8_decode_utf8, is_char_boundary};
use crate::clock::Timestamp;
use crate::rpc::types::{
    audio_label, clone_opt_string, contact_prefix, document_prefix, ellipsis, group_marker,
    jid_normalized_user, jid_user, location_label, photo_label, sticker_label, text_or,
    unsupported_label, video_label, voice_label,
};
use crate::text::{chars_of, contains_chars, contains_seq, cut_at_char, string_from};

verus! {

/// A WhatsApp JID (Jabber ID).
#[derive(Debug, Hash)]
pub struct Jid(pub String);

impl Clone for Jid {
    fn clone(&self) -> (r: Self)
        ensures
            r == *self,
    {
        Jid(self.0.clone())
    }
}

impl PartialEq for Jid {
    fn eq(&self, other: &Self) -> (r: bool) {
        self.0 == other.0
    }
}

impl Eq for Jid {
}

impl vstd::std_specs::cmp::PartialEqSpecImpl for Jid {
    open spec fn obeys_eq_spec() -> bool {
        true
    }

    open spec fn eq_spec(&self, other: &Jid) -> bool {
        self.0@ == other.0@
    }
}

impl Jid {
    pub fn new(jid: String) -> (r: Jid)
        ensures
            r.0@ == jid@,
    {
        Jid(jid)
    }

    /// The user part of the JID (before the first `@`).
    pub fn user(&self) -> (r: String)
        ensures
            r@ == jid_user(self.0@),
    {
        cut_at_char(self.0.as_str(), '@')
    }

    /// Whether this is a group JID.
    pub fn is_group(&self) -> (r: bool)
        ensures
            r == contains_seq(self.0@, group_marker()),
    {
        let v = chars_of(self.0.as_str());
        let marker: Vec<char> = vec!['@', 'g', '.', 'u', 's'];
        assert(marker@ == group_marker());
        contains_chars(v.as_slice(), marker.as_slice())
    }

    /// The label shown for a JID that has no name: the user part without a
    /// device suffix.
    pub fn display_label(&self) -> (r: String)
        ensures
            r@ == jid_normalized_user(self.0@),
    {
        let u = self.user();
        cut_at_char(u.as_str(), ':')
    }
}

/// A chat/conversation in WhatsApp.
#[derive(Debug)]
pub struct Chat {
    pub jid: Jid,
    pub name: String,
    pub last_message: Option<String>,
    pub last_activity: Option<Timestamp>,
    pub is_group: bool,
    pub unread_count: u32,
    pub is_muted: bool,
    pub is_pinned: bool,
}

impl Clone for Chat {
    fn clone(&self) -> (r: Self)
        ensures
            r == *self,
    {
        Chat {
            jid: self.jid.clone(),
            name: self.name.clone(),
            last_message: clone_opt_string(&self.last_message),
            last_activity: self.last_activity,
            is_group: self.is_group,
            unread_count: self.unread_count,
            is_muted: self.is_muted,
            is_pinned: self.is_pinned,
        }
    }
}

impl Chat {
    /// A chat with no messages yet; group chats are recognized by their JID.
    pub fn new(jid: Jid, name: String) -> (r: Chat)
        ensures
            r.jid == jid,
            r.name == name,
            r.last_message is None,
            r.last_activity is None,
            r.is_group == contains_seq(jid.0@, group_marker()),
            r.unread_count == 0,
            !r.is_muted,
            !r.is_pinned,
    {
        let is_group = jid.is_group();
        Chat {
            jid,
            name,
            last_message: None,
            last_activity: None,
            is_group,
            unread_count: 0,
            is_muted: false,
            is_pinned: false,
        }
    }
}

/// A message in a chat.
#[derive(Debug)]
pub struct ChatMessage {
    pub id: String,
    pub sender: Jid,
    pub chat: Jid,
    pub content: MessageContent,
    pub timestamp: Timestamp,
    pub is_from_me: bool,
    pub status: MessageStatus,
    pub quoted_message: Option<Box<ChatMessage>>,
}

impl Clone for ChatMessage {
    fn clone(&self) -> (r: Self)
        ensures
            r.id == self.id,
            r.sender == self.sender,
            r.chat == self.chat,
            r.timestamp == self.timestamp,
            r.is_from_me == self.is_from_me,
            r.status == self.status,
        decreases self,
    {
        let quoted_message = match &self.quoted_message {
            Some(q) => Some(Box::new((**q).clone())),
            None => None,
        };
        ChatMessage {
            id: self.id.clone(),
            sender: self.sender.clone(),
            chat: self.chat.clone(),
            content: self.content.clone(),
            timestamp: self.timestamp,
            is_from_me: self.is_from_me,
            status: self.status,
            quoted_message,
        }
    }
}

/// Content of a message. The coordinates of a location are kept as the
/// IEEE-754 bit patterns of their `f64` values.
#[derive(Debug, Clone)]
pub enum MessageContent {
    Text(String),
    Image { caption: Option<String>, url: Option<String>, thumbnail: Option<Vec<u8>> },
    Video { caption: Option<String>, url: Option<String>, thumbnail: Option<Vec<u8>> },
    Audio { url: Option<String>, duration_secs: u32, is_voice_note: bool },
    Document { filename: String, url: Option<String>, mime_type: Option<String> },
    Sticker { url: Option<String> },
    Location { latitude_bits: u64, longitude_bits: u64, name: Option<String> },
    Contact { display_name: String, vcard: String },
    System(String),
    Unknown,
}

/// The preview of a text measured in UTF-8 bytes: a text of more than 50
/// bytes is cut to its first 47 bytes followed by `...`.
pub open spec fn byte_preview_text(t: Seq<char>) -> Seq<char> {
    let b = encode_utf8(t);
    if b.len() > 50 {
        decode_utf8(b.subrange(0, 47)) + ellipsis()
    } else {
        t
    }
}

/// A text can be previewed when it is short, or when its 47th byte ends a
/// character (the cut would otherwise split one).
pub open spec fn byte_previewable(t: Seq<char>) -> bool {
    encode_utf8(t).len() > 50 ==> is_char_boundary(encode_utf8(t), 47)
}

/// Encoding a concatenation encodes each part in turn.
proof fn lemma_encode_utf8_concat(a: Seq<char>, b: Seq<char>)
    ensures
        encode_utf8(a + b) == encode_utf8(a) + encode_utf8(b),
    decreases a.len(),
{
    if a.len() > 0 {
        lemma_encode_utf8_concat(a.drop_first(), b);
        assert((a + b).drop_first() =~= a.drop_first() + b);
        assert((a + b)[0] == a[0]);
    } else {
        assert(a + b =~= b);
    }
}

/// The preview of a text that can be previewed takes at most 50 bytes, and
/// a text of at most 50 bytes is its own preview.
pub proof fn lemma_byte_preview_short(t: Seq<char>)
    requires
        byte_previewable(t),
    ensures
        encode_utf8(byte_preview_text(t)).len() <= 50,
        encode_utf8(t).len() <= 50 ==> byte_preview_text(t) == t,
{
    let b = encode_utf8(t);
    if b.len() > 50 {
        vstd::utf8::encode_utf8_valid_utf8(t);
        let head = b.subrange(0, 47);
        vstd::utf8::valid_utf8_split(b, 47);
        vstd::utf8::decode_utf8_encode_utf8(head);
        lemma_encode_utf8_concat(decode_utf8(head), ellipsis());
        assert(vstd::utf8::is_ascii_chars(ellipsis()));
        vstd::utf8::is_ascii_chars_encode_utf8(ellipsis());
    }
}

/// The one-line preview shown for a message.
pub open spec fn content_preview(c: MessageContent) -> Seq<char> {
    match c {
        MessageContent::Text(t) => byte_preview_text(t@),
        MessageContent::Image { caption, .. } => text_or(caption, photo_label()),
        MessageContent::Video { caption, .. } => text_or(caption, video_label()),
        MessageContent::Audio { is_voice_note, .. } => if is_voice_note {
            voice_label()
        } else {
            audio_label()
        },
        MessageContent::Document { filename, .. } => document_prefix() + filename@,
        MessageContent::Sticker { .. } => sticker_label(),
        MessageContent::Location { name, .. } => text_or(name, location_label()),
        MessageContent::Contact { display_name, .. } => contact_prefix() + display_name@,
        MessageContent::System(t) => t@,
        MessageContent::Unknown => unsupported_label(),
    }
}

/// Content whose preview can be taken.
pub open spec fn content_previewable(c: MessageContent) -> bool {
    match c {
        MessageContent::Text(t) => byte_previewable(t@),
        _ => true,
    }
}

/// The byte-measured preview of a text.
pub fn preview_of_bytes(t: &str) -> (r: String)
    requires
        byte_previewable(t@),
    ensures
        r@ == byte_preview_text(t@),
{
    let byte_len = t.as_bytes().len();
    if byte_len > 50 {
        let (head, _tail) = t.split_at(47);
        proof {
            // the first 47 bytes decode back to the characters they encode
            encode_utf8_decode_utf8(head@);
            assert(encode_utf8(head@) == encode_utf8(t@).subrange(0, 47));
        }
        let mut v = chars_of(head);
        v.push('.');
        v.push('.');
        v.push('.');
        assert(v@ == head@ + ellipsis());
        string_from(v)
    } else {
        string_from(chars_of(t))
    }
}

/// The text of `o`, or the given label.
fn text_or_label(o: &Option<String>, label: Vec<char>) -> (r: String)
    ensures
        r@ == text_or(*o, label@),
{
    match o {
        Some(s) => s.clone(),
        None => string_from(label),
    }
}

/// `prefix` followed by the characters of `s`.
fn prefixed(prefix: Vec<char>, s: &str) -> (r: String)
    ensures
        r@ == prefix@ + s@,
{
    let mut v = prefix;
    let mut w = chars_of(s);
    v.append(&mut w);
    string_from(v)
}

impl MessageContent {
    /// The one-line preview of this content.
    pub fn preview(&self) -> (r: String)
        requires
            content_previewable(*self),
        ensures
            r@ == content_preview(*self),
    {
        match self {
            MessageContent::Text(text) => preview_of_bytes(text.as_str()),
            MessageContent::Image { caption, .. } => {
                let label: Vec<char> = vec!['\u{1F4F7}', ' ', 'P', 'h', 'o', 't', 'o'];
                assert(label@ == photo_label());
                text_or_label(caption, label)
            },
            MessageContent::Video { caption, .. } => {
                let label: Vec<char> = vec!['\u{1F3A5}', ' ', 'V', 'i', 'd', 'e', 'o'];
                assert(label@ == video_label());
                text_or_label(caption, label)
            },
            MessageContent::Audio { is_voice_note, .. } => {
                if *is_voice_note {
                    let label: Vec<char> = vec![
                        '\u{1F3A4}', ' ', 'V', 'o', 'i', 'c', 'e', ' ', 'm', 'e', 's', 's', 'a',
                        'g', 'e',
                    ];
                    assert(label@ == voice_label());
                    string_from(label)
                } else {
                    let label: Vec<char> = vec!['\u{1F3B5}', ' ', 'A', 'u', 'd', 'i', 'o'];
                    assert(label@ == audio_label());
                    string_from(label)
                }
            },
            MessageContent::Document { filename, .. } => {
                let prefix: Vec<char> = vec!['\u{1F4C4}', ' '];
                assert(prefix@ == document_prefix());
                prefixed(prefix, filename.as_str())
            },
            MessageContent::Sticker { .. } => {
                let label: Vec<char> = vec!['\u{1F3AD}', ' ', 'S', 't', 'i', 'c', 'k', 'e', 'r'];
                assert(label@ == sticker_label());
                string_from(label)
            },
            MessageContent::Location { name, .. } => {
                let label: Vec<char> = vec![
                    '\u{1F4CD}', ' ', 'L', 'o', 'c', 'a', 't', 'i', 'o', 'n',
                ];
                assert(label@ == location_label());
                text_or_label(name, label)
            },
            MessageContent::Contact { display_name, .. } => {
                let prefix: Vec<char> = vec!['\u{1F464}', ' '];
                assert(prefix@ == contact_prefix());
                prefixed(prefix, display_name.as_str())
            },
            MessageContent::System(text) => text.clone(),
            MessageContent::Unknown => {
                let label: Vec<char> = vec![
                    'U', 'n', 's', 'u', 'p', 'p', 'o', 'r', 't', 'e', 'd', ' ', 'm', 'e', 's',
                    's', 'a', 'g', 'e',
                ];
                assert(label@ == unsupported_label());
                string_from(label)
            },
        }
    }
}

/// Message delivery/read status.
#[derive(Debug, Clone, Copy, PartialEq, Eq, Structural)]
pub enum MessageStatus {
    Pending,
    Sent,
    Delivered,
    Read,
    Failed,
}

/// Connection state of the WhatsApp client.
#[derive(Debug, Clone, PartialEq, Eq)]
pub enum ConnectionState {
    Disconnected,
    Connecting,
    WaitingForQr { qr_code: String },
    WaitingForPairCode { code: String },
    Connected,
    Reconnecting,
    LoggedOut,
}

impl ConnectionState {
    /// Connected and authenticated.
    pub fn is_connected(&self) -> (r: bool)
        ensures
            r == (*self is Connected),
    {
        match self {
            ConnectionState::Connected => true,
            _ => false,
        }
    }

    /// The user has to pair (or the client is not connected at all).
    pub fn needs_pairing(&self) -> (r: bool)
        ensures
            r == (*self is Disconnected || *self is WaitingForQr || *self is WaitingForPairCode
                || *self is LoggedOut),
    {
        match self {
            ConnectionState::Disconnected => true,
            ConnectionState::WaitingForQr { .. } => true,
            ConnectionState::WaitingForPairCode { .. } => true,
            ConnectionState::LoggedOut => true,
            _ => false,
        }
    }
}

/// Typing indicator state.
#[derive(Debug, Clone, Copy, PartialEq, Eq, Structural)]
pub enum TypingState {
    Idle,
    Typing,
    Recording,
}

/// Presence (online/offline) information.
#[derive(Debug, Clone)]
pub struct Presence {
    pub jid: Jid,
    pub is_online: bool,
    pub last_seen: Option<Timestamp>,
}

/// The preview of a message: a caption or place name when it has one, else
/// the label of its kind (a voice note and other audio differ); a document
/// or contact card is shown by its name after its sign; a text of at most 50
/// bytes is itself.
pub proof fn lemma_content_preview_shows_content(c: MessageContent)
    ensures
        c is Text && encode_utf8(c->Text_0@).len() <= 50 ==> content_preview(c) == c->Text_0@,
        c is Image && c->Image_caption is Some ==> content_preview(c) == c->Image_caption->0@,
        c is Image && c->Image_caption is None ==> content_preview(c) == seq!['\u{1F4F7}', ' ', 'P', 'h', 'o', 't', 'o'],
        c is Video && c->Video_caption is Some ==> content_preview(c) == c->Video_caption->0@,
        c is Video && c->Video_caption is None ==> content_preview(c) == seq!['\u{1F3A5}', ' ', 'V', 'i', 'd', 'e', 'o'],
        c is Audio && c->Audio_is_voice_note ==> content_preview(c) == seq!['\u{1F3A4}', ' ', 'V', 'o', 'i', 'c', 'e', ' ', 'm', 'e', 's', 's', 'a', 'g', 'e'],
        c is Audio && !c->Audio_is_voice_note ==> content_preview(c) == seq!['\u{1F3B5}', ' ', 'A', 'u', 'd', 'i', 'o'],
        c is Document ==> content_preview(c) == seq!['\u{1F4C4}', ' '] + c->Document_filename@,
        c is Sticker ==> content_preview(c) == seq!['\u{1F3AD}', ' ', 'S', 't', 'i', 'c', 'k', 'e', 'r'],
        c is Location && c->Location_name is Some ==> content_preview(c) == c->Location_name->0@,
        c is Location && c->Location_name is None ==> content_preview(c) == seq!['\u{1F4CD}', ' ', 'L', 'o', 'c', 'a', 't', 'i', 'o', 'n'],
        c is Contact ==> content_preview(c) == seq!['\u{1F464}', ' '] + c->Contact_display_name@,
        c is System ==> content_preview(c) == c->System_0@,
        c is Unknown ==> content_preview(c) == seq!['U', 'n', 's', 'u', 'p', 'p', 'o', 'r', 't', 'e', 'd', ' ', 'm', 'e', 's', 's', 'a', 'g', 'e'],
{
}

} // verus!
