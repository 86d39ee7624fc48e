//! Reading the content of a WhatsApp protocol message.
//!
//! The fields of the protocol message that decide the content are held in
//! `MessageFields`, one field for each field of the protocol message that is
//! read; wrapped messages (view-once, ephemeral, edited) hold the message
//! they wrap.

use vstd::prelude::*;
use crate::text::{trim, trimmed};
use crate::text::string_from;
use crate::whatsapp::MessageContent;

verus! {

/// The text fields of an extended text message.
#[derive(Debug, Clone)]
pub struct ExtendedTextFields {
    pub text: Option<String>,
    pub description: Option<String>,
}

/// The fields of an image or video message.
#[derive(Debug, Clone)]
pub struct MediaFields {
    pub caption: Option<String>,
    pub url: Option<String>,
    pub jpeg_thumbnail: Option<Vec<u8>>,
}

/// The fields of an audio message.
#[derive(Debug, Clone)]
pub struct AudioFields {
    pub url: Option<String>,
    pub seconds: Option<u32>,
    pub ptt: Option<bool>,
}

/// The fields of a document message.
#[derive(Debug, Clone)]
pub struct DocumentFields {
    pub file_name: Option<String>,
    pub url: Option<String>,
    pub mimetype: Option<String>,
}

/// The fields of a sticker message.
#[derive(Debug, Clone)]
pub struct StickerFields {
    pub url: Option<String>,
}

/// The fields of a location message; the coordinates are the bit patterns
/// of their `f64` values.
#[derive(Debug, Clone)]
pub struct LocationFields {
    pub degrees_latitude_bits: Option<u64>,
    pub degrees_longitude_bits: Option<u64>,
    pub name: Option<String>,
}

/// The fields of a contact message.
#[derive(Debug, Clone)]
pub struct ContactFields {
    pub display_name: Option<String>,
    pub vcard: Option<String>,
}

/// The fields of a protocol message that decide its content.
#[derive(Debug)]
pub struct MessageFields {
    pub conversation: Option<String>,
    pub extended_text_message: Option<ExtendedTextFields>,
    pub image_message: Option<MediaFields>,
    pub video_message: Option<MediaFields>,
    pub audio_message: Option<AudioFields>,
    pub document_message: Option<DocumentFields>,
    pub sticker_message: Option<StickerFields>,
    pub location_message: Option<LocationFields>,
    pub contact_message: Option<ContactFields>,
    pub view_once_message: Option<Box<MessageFields>>,
    pub view_once_message_v2: Option<Box<MessageFields>>,
    pub ephemeral_message: Option<Box<MessageFields>>,
    pub edited_message: Option<Box<MessageFields>>,
}

/// A text that is not empty once trimmed.
pub open spec fn non_blank(o: Option<String>) -> bool {
    match o {
        Some(s) => trimmed(s@).len() > 0,
        None => false,
    }
}

/// `Document`, the file name of a document that has none.
pub open spec fn default_file_name() -> Seq<char> {
    seq!['D', 'o', 'c', 'u', 'm', 'e', 'n', 't']
}

/// `Contact`, the name of a contact card that has none.
pub open spec fn default_contact_name() -> Seq<char> {
    seq!['C', 'o', 'n', 't', 'a', 'c', 't']
}

/// The content of a message with the given fields: the first kind present,
/// in the order text, extended text (its text, then its description, when
/// not blank), image, video, audio, document, sticker, location, contact,
/// then the content of a wrapped message; unknown otherwise.
pub open spec fn content_of(m: MessageFields) -> MessageContent
    decreases m, 2int,
{
    match m.conversation {
        Some(text) => MessageContent::Text(text),
        None => {
            let ext_text = match m.extended_text_message {
                Some(e) => if non_blank(e.text) {
                    e.text
                } else if non_blank(e.description) {
                    e.description
                } else {
                    None
                },
                None => None,
            };
            match ext_text {
                Some(t) => MessageContent::Text(t),
                None => match m.image_message {
                    Some(i) => MessageContent::Image {
                        caption: i.caption,
                        url: i.url,
                        thumbnail: i.jpeg_thumbnail,
                    },
                    None => match m.video_message {
                        Some(v) => MessageContent::Video {
                            caption: v.caption,
                            url: v.url,
                            thumbnail: v.jpeg_thumbnail,
                        },
                        None => content_after_video(m),
                    },
                },
            }
        },
    }
}

/// `content_of` for a message without text, image or video.
pub open spec fn content_after_video(m: MessageFields) -> MessageContent
    decreases m, 1int,
{
    match m.audio_message {
        Some(a) => MessageContent::Audio {
            url: a.url,
            duration_secs: match a.seconds {
                Some(s) => s,
                None => 0,
            },
            is_voice_note: match a.ptt {
                Some(p) => p,
                None => false,
            },
        },
        None => match m.document_message {
            Some(d) => MessageContent::Document {
                filename: match d.file_name {
                    Some(f) => f,
                    None => choose|s: String| s@ == default_file_name(),
                },
                url: d.url,
                mime_type: d.mimetype,
            },
            None => match m.sticker_message {
                Some(s) => MessageContent::Sticker { url: s.url },
                None => match m.location_message {
                    Some(l) => MessageContent::Location {
                        latitude_bits: match l.degrees_latitude_bits {
                            Some(b) => b,
                            None => 0,
                        },
                        longitude_bits: match l.degrees_longitude_bits {
                            Some(b) => b,
                            None => 0,
                        },
                        name: l.name,
                    },
                    None => content_after_location(m),
                },
            },
        },
    }
}

/// `content_of` for a message that is none of the media kinds.
pub open spec fn content_after_location(m: MessageFields) -> MessageContent
    decreases m, 0int,
{
    match m.contact_message {
        Some(c) => MessageContent::Contact {
            display_name: match c.display_name {
                Some(n) => n,
                None => choose|s: String| s@ == default_contact_name(),
            },
            vcard: match c.vcard {
                Some(v) => v,
                None => choose|s: String| s@ == Seq::<char>::empty(),
            },
        },
        None => match m.view_once_message {
            Some(inner) => content_of(*inner),
            None => match m.view_once_message_v2 {
                Some(inner) => content_of(*inner),
                None => match m.ephemeral_message {
                    Some(inner) => content_of(*inner),
                    None => match m.edited_message {
                        Some(inner) => content_of(*inner),
                        None => MessageContent::Unknown,
                    },
                },
            },
        },
    }
}

/// Equal contents, where the texts filled in for a missing file name,
/// contact name or card are compared by their characters.
pub open spec fn same_content(a: MessageContent, b: MessageContent) -> bool {
    match (a, b) {
        (
            MessageContent::Document { filename: f1, url: u1, mime_type: m1 },
            MessageContent::Document { filename: f2, url: u2, mime_type: m2 },
        ) => f1@ == f2@ && u1 == u2 && m1 == m2,
        (
            MessageContent::Contact { display_name: d1, vcard: v1 },
            MessageContent::Contact { display_name: d2, vcard: v2 },
        ) => d1@ == d2@ && v1@ == v2@,
        _ => a == b,
    }
}

/// A message without any field set.
pub open spec fn no_fields() -> MessageFields {
    MessageFields {
        conversation: None,
        extended_text_message: None,
        image_message: None,
        video_message: None,
        audio_message: None,
        document_message: None,
        sticker_message: None,
        location_message: None,
        contact_message: None,
        view_once_message: None,
        view_once_message_v2: None,
        ephemeral_message: None,
        edited_message: None,
    }
}

/// The message whose only field is a wrapper around `inner`: view-once
/// (`kind` 0), view-once v2 (1), ephemeral (2) or edited (3).
pub open spec fn wrapping(kind: int, inner: MessageFields) -> MessageFields {
    let w = Some(Box::new(inner));
    if kind == 0 {
        MessageFields { view_once_message: w, ..no_fields() }
    } else if kind == 1 {
        MessageFields { view_once_message_v2: w, ..no_fields() }
    } else if kind == 2 {
        MessageFields { ephemeral_message: w, ..no_fields() }
    } else {
        MessageFields { edited_message: w, ..no_fields() }
    }
}

/// Unwrapping a view-once, ephemeral or edited wrapper leaves the content
/// as it is: a message that only wraps `inner` has the content of `inner`;
/// a message without any field is unknown.
pub proof fn lemma_unwrap_keeps_content(inner: MessageFields, kind: int)
    requires
        0 <= kind < 4,
    ensures
        content_of(wrapping(kind, inner)) == content_of(inner),
        content_of(no_fields()) == MessageContent::Unknown,
{
    reveal_with_fuel(content_of, 2);
    reveal_with_fuel(content_after_video, 2);
    reveal_with_fuel(content_after_location, 2);
}

/// Whether a text is empty once trimmed.
fn is_blank(s: &String) -> (r: bool)
    ensures
        r == (trimmed(s@).len() == 0),
{
    trim(s.as_str()).is_empty()
}

/// The content of a protocol message.
pub fn parse_message_content(message: MessageFields) -> (r: MessageContent)
    ensures
        same_content(r, content_of(message)),
    decreases message,
{
    let ghost m = message;
    if let Some(text) = message.conversation {
        return MessageContent::Text(text);
    }
    if let Some(extended) = message.extended_text_message {
        if let Some(text) = extended.text {
            if !is_blank(&text) {
                return MessageContent::Text(text);
            }
        }
        if let Some(description) = extended.description {
            if !is_blank(&description) {
                return MessageContent::Text(description);
            }
        }
    }
    if let Some(image) = message.image_message {
        return MessageContent::Image {
            caption: image.caption,
            url: image.url,
            thumbnail: image.jpeg_thumbnail,
        };
    }
    if let Some(video) = message.video_message {
        return MessageContent::Video {
            caption: video.caption,
            url: video.url,
            thumbnail: video.jpeg_thumbnail,
        };
    }
    if let Some(audio) = message.audio_message {
        return MessageContent::Audio {
            url: audio.url,
            duration_secs: match audio.seconds {
                Some(s) => s,
                None => 0,
            },
            is_voice_note: match audio.ptt {
                Some(p) => p,
                None => false,
            },
        };
    }
    if let Some(document) = message.document_message {
        let filename = match document.file_name {
            Some(f) => f,
            None => string_from(vec!['D', 'o', 'c', 'u', 'm', 'e', 'n', 't']),
        };
        return MessageContent::Document { filename, url: document.url, mime_type: document.mimetype };
    }
    if let Some(sticker) = message.sticker_message {
        return MessageContent::Sticker { url: sticker.url };
    }
    if let Some(location) = message.location_message {
        return MessageContent::Location {
            latitude_bits: match location.degrees_latitude_bits {
                Some(b) => b,
                None => 0,
            },
            longitude_bits: match location.degrees_longitude_bits {
                Some(b) => b,
                None => 0,
            },
            name: location.name,
        };
    }
    if let Some(contact) = message.contact_message {
        let display_name = match contact.display_name {
            Some(n) => n,
            None => string_from(vec!['C', 'o', 'n', 't', 'a', 'c', 't']),
        };
        let vcard = match contact.vcard {
            Some(v) => v,
            None => String::new(),
        };
        return MessageContent::Contact { display_name, vcard };
    }
    if let Some(inner) = message.view_once_message {
        return parse_message_content(*inner);
    }
    if let Some(inner) = message.view_once_message_v2 {
        return parse_message_content(*inner);
    }
    if let Some(inner) = message.ephemeral_message {
        return parse_message_content(*inner);
    }
    if let Some(inner) = message.edited_message {
        return parse_message_content(*inner);
    }
    MessageContent::Unknown
}

/// A message with conversation text is that text, whatever else it holds.
pub proof fn lemma_conversation_first(m: MessageFields)
    requires
        m.conversation is Some,
    ensures
        content_of(m) == MessageContent::Text(m.conversation->0),
{
}

/// Without conversation text, an extended text message whose text is not
/// blank is that text.
pub proof fn lemma_extended_text(m: MessageFields, e: ExtendedTextFields, text: String)
    requires
        m.conversation is None,
        m.extended_text_message == Some(e),
        e.text == Some(text),
        trimmed(text@).len() > 0,
    ensures
        content_of(m) == MessageContent::Text(text),
{
}

/// Without conversation text, an extended text message whose text is
/// missing or blank but whose description is not blank is the description.
pub proof fn lemma_extended_description(m: MessageFields, e: ExtendedTextFields, description: String)
    requires
        m.conversation is None,
        m.extended_text_message == Some(e),
        e.text is None || trimmed(e.text->0@).len() == 0,
        e.description == Some(description),
        trimmed(description@).len() > 0,
    ensures
        content_of(m) == MessageContent::Text(description),
{
}

/// A message without text whose first media is an image is that image,
/// with its caption, link and thumbnail.
pub proof fn lemma_image_content(m: MessageFields, i: MediaFields)
    requires
        m.conversation is None,
        m.extended_text_message is None,
        m.image_message == Some(i),
    ensures
        content_of(m) == (MessageContent::Image { caption: i.caption, url: i.url, thumbnail: i.jpeg_thumbnail }),
{
}

/// A message without text or image that holds a video is that video, with
/// its caption, link and thumbnail.
pub proof fn lemma_video_content(m: MessageFields, v: MediaFields)
    requires
        m.conversation is None,
        m.extended_text_message is None,
        m.image_message is None,
        m.video_message == Some(v),
    ensures
        content_of(m) == (MessageContent::Video { caption: v.caption, url: v.url, thumbnail: v.jpeg_thumbnail }),
{
}

/// A message without text, image or video that holds an audio message is
/// audio with its link and length (zero when missing); it is a voice note
/// exactly when the audio's `ptt` flag is set.
pub proof fn lemma_audio_content(m: MessageFields, a: AudioFields)
    requires
        m.conversation is None,
        m.extended_text_message is None,
        m.image_message is None,
        m.video_message is None,
        m.audio_message == Some(a),
    ensures
        content_of(m) matches MessageContent::Audio { url, duration_secs, is_voice_note } && url == a.url
            && is_voice_note == (a.ptt == Some(true)) && (a.seconds matches Some(s) ==> duration_secs == s) && (
        a.seconds is None ==> duration_secs == 0),
{
}

/// A message that is none of text, image, video or audio and holds a
/// document is that document, with its link, type and file name.
pub proof fn lemma_document_content(m: MessageFields, d: DocumentFields)
    requires
        m.conversation is None,
        m.extended_text_message is None,
        m.image_message is None,
        m.video_message is None,
        m.audio_message is None,
        m.document_message == Some(d),
    ensures
        content_of(m) is Document,
        content_of(m)->Document_url == d.url,
        content_of(m)->Document_mime_type == d.mimetype,
        d.file_name is Some ==> content_of(m)->Document_filename == d.file_name->0,
{
}

/// A message that is none of the media kinds and holds a contact card is
/// that contact, with its display name and card.
pub proof fn lemma_contact_content(m: MessageFields, c: ContactFields)
    requires
        m.conversation is None,
        m.extended_text_message is None,
        m.image_message is None,
        m.video_message is None,
        m.audio_message is None,
        m.document_message is None,
        m.sticker_message is None,
        m.location_message is None,
        m.contact_message == Some(c),
    ensures
        content_of(m) is Contact,
        c.display_name is Some ==> content_of(m)->Contact_display_name == c.display_name->0,
        c.vcard is Some ==> content_of(m)->Contact_vcard == c.vcard->0,
{
}

} // verus!
