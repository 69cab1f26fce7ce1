use vstd::prelude::*;
use crate::document::{Document, DocumentView, Field, FieldView};

verus! {

/// `c` is a lowercase hexadecimal digit.
pub open spec fn is_lower_hex(c: char) -> bool {
    ('0' <= c && c <= '9') || ('a' <= c && c <= 'f')
}

/// `s` is the hyphenated lowercase text of a random (version 4, RFC 4122
/// variant) UUID: 36 characters, `-` at positions 8, 13, 18 and 23,
/// lowercase hexadecimal digits elsewhere, `4` at position 14 and one of
/// `8`, `9`, `a`, `b` at position 19.
pub open spec fn is_uuid_v4_text(s: Seq<char>) -> bool {
    &&& s.len() == 36
    &&& forall|i: int|
        0 <= i < 36 ==> if i == 8 || i == 13 || i == 18 || i == 23 {
            s[i] == '-'
        } else {
            is_lower_hex(#[trigger] s[i])
        }
    &&& s[14] == '4'
    &&& (s[19] == '8' || s[19] == '9' || s[19] == 'a' || s[19] == 'b')
}

/// Calls `uuid::Uuid::new_v4` and turns the id into its text. The id is
/// random, so only its form is claimed: `new_v4` fixes the version and
/// variant bits, and the text form is the hyphenated lowercase one.
#[verifier::external_body]
fn random_message_id() -> (r: String)
    ensures
        is_uuid_v4_text(r@),
{
    uuid::Uuid::new_v4().to_string()
}

/// A message published on a topic.
#[derive(Debug, Clone)]
pub struct PubSubMessage {
    pub topic: String,
    pub message_id: String,
    pub message: serde_json::Value,
    pub producer: String,
}

/// The members of the object that a message is sent as.
pub open spec fn message_members(
    topic: Seq<char>,
    message_id: Seq<char>,
    message: serde_json::Value,
    producer: Seq<char>,
) -> DocumentView {
    seq![
        ("topic"@, FieldView::Text(topic)),
        ("message_id"@, FieldView::Text(message_id)),
        ("message"@, FieldView::Json(message)),
        ("producer"@, FieldView::Text(producer)),
    ]
}

impl PubSubMessage {
    /// A message with the given topic, payload and producer; its id is
    /// `message_id` where given, else a new random UUID.
    pub fn new(topic: &str, message: serde_json::Value, producer: &str, message_id: Option<String>) -> (r: Self)
        ensures
            r.topic@ == topic@,
            r.message == message,
            r.producer@ == producer@,
            match message_id {
                Some(id) => r.message_id@ == id@,
                None => is_uuid_v4_text(r.message_id@),
            },
    {
        let message_id = match message_id {
            Some(id) => id,
            None => random_message_id(),
        };
        PubSubMessage {
            topic: topic.to_owned(),
            message_id,
            message,
            producer: producer.to_owned(),
        }
    }

    /// The message as the JSON object that is published: its `topic`,
    /// `message_id`, `message` and `producer`.
    pub fn to_dict(&self) -> (r: Document)
        ensures
            r@ == message_members(self.topic@, self.message_id@, self.message, self.producer@),
    {
        let mut d = Document::new();
        d.push("topic", Field::Text(self.topic.clone()));
        d.push("message_id", Field::Text(self.message_id.clone()));
        d.push("message", Field::Json(self.message.clone()));
        d.push("producer", Field::Text(self.producer.clone()));
        assert(d@ =~= message_members(self.topic@, self.message_id@, self.message, self.producer@));
        d
    }
}

} // verus!
