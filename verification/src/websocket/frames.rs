//! Frames received from a WebSocket and the first look at their text.

use vstd::prelude::*;

use crate::common::text::same_text;

verus! {

/// Text the transport delivers after it has reconnected.
pub const RECONNECTED: &'static str = "__RECONNECTED__";

/// Key of the message type field of a JSON message.
pub const MESSAGE_TYPE_KEY: &'static str = "t";

/// Key of the request ID field of a JSON response.
pub const REQUEST_ID_KEY: &'static str = "rid";

/// A frame received from a WebSocket.
#[derive(Clone, Debug)]
pub enum RawMessage {
    /// A text frame.
    Text(String),
    /// A binary frame of the given length.
    Binary(usize),
    /// A ping with its payload.
    Ping(Vec<u8>),
    /// A pong.
    Pong,
    /// A close frame.
    Close,
    /// A raw frame.
    Frame,
}

/// What a handler does about a received frame beyond queuing messages.
#[derive(Clone, Debug)]
pub enum RawAction {
    /// Nothing.
    Nothing,
    /// Answer with a pong carrying this payload.
    Pong(Vec<u8>),
}

/// What the text of a frame is.
#[derive(Clone, Debug)]
pub enum TextFrame {
    /// The transport's reconnection signal.
    Reconnected,
    /// Not a JSON object: invalid JSON, or another JSON value.
    NotObject,
    /// A JSON object.
    Object {
        /// The string value of its `"t"` field, if it has one.
        msg_type: Option<String>,
        /// Whether it has an `"rid"` field.
        has_rid: bool,
    },
}

#[verifier::external_type_specification]
#[verifier::external_body]
pub struct ExJsonValue(serde_json::Value);

#[verifier::external_type_specification]
#[verifier::external_body]
#[verifier::reject_recursive_types(K)]
#[verifier::reject_recursive_types(V)]
pub struct ExJsonMap<K, V>(serde_json::Map<K, V>);

/// The fields of a JSON object as this library reads them: each key, with
/// the string its value holds where that value is a JSON string.
pub uninterp spec fn json_object_fields(m: serde_json::Map<String, serde_json::Value>) -> Map<Seq<char>, Option<Seq<char>>>;

/// The fields of the JSON object that `serde_json` parses from a text, or
/// `None` where the text is not a JSON object.
pub uninterp spec fn json_object_of(text: Seq<char>) -> Option<Map<Seq<char>, Option<Seq<char>>>>;

/// Calls `serde_json::from_str` for a `serde_json::Map`. The result depends
/// on the text alone: `None` where the text is not a JSON object, otherwise
/// the object, whose fields are [`json_object_of`] of the text.
#[verifier::external_body]
fn json_object_from_str(text: &str) -> (res: Option<serde_json::Map<String, serde_json::Value>>)
    ensures
        match res {
            Some(m) => json_object_of(text@) == Some(json_object_fields(m)),
            None => json_object_of(text@) is None,
        },
{
    serde_json::from_str::<serde_json::Map<String, serde_json::Value>>(text).ok()
}

/// Calls `serde_json::Map::get` and tells the value's variants apart: the
/// string held by the field `key`, where there is such a field and its value
/// is a JSON string.
#[verifier::external_body]
fn json_field_str<'a>(m: &'a serde_json::Map<String, serde_json::Value>, key: &str) -> (res: Option<&'a str>)
    ensures
        match res {
            Some(s) => json_object_fields(*m).contains_key(key@) && json_object_fields(*m)[key@]
                == Some(s@),
            None => !json_object_fields(*m).contains_key(key@) || json_object_fields(*m)[key@] is None,
        },
{
    match m.get(key) {
        Some(serde_json::Value::String(s)) => Some(s.as_str()),
        Some(serde_json::Value::Null) => None,
        Some(serde_json::Value::Bool(_)) => None,
        Some(serde_json::Value::Number(_)) => None,
        Some(serde_json::Value::Array(_)) => None,
        Some(serde_json::Value::Object(_)) => None,
        None => None,
    }
}

/// Calls `serde_json::Map::contains_key`: whether the object has the field
/// `key`.
#[verifier::external_body]
fn json_has_field(m: &serde_json::Map<String, serde_json::Value>, key: &str) -> (b: bool)
    ensures
        b == json_object_fields(*m).contains_key(key@),
{
    m.contains_key(key)
}

/// The string value of field `key`, where the object has that field and it
/// holds a string.
pub open spec fn field_str(fields: Map<Seq<char>, Option<Seq<char>>>, key: Seq<char>) -> Option<Seq<char>> {
    if fields.contains_key(key) {
        fields[key]
    } else {
        None
    }
}

/// The view of an optional string.
pub open spec fn opt_str_view(o: Option<String>) -> Option<Seq<char>> {
    match o {
        Some(s) => Some(s@),
        None => None,
    }
}

/// Takes a first look at the text of a frame: the reconnection signal, or
/// what the JSON parser makes of it.
pub fn inspect_text_frame(text: &str) -> (f: TextFrame)
    ensures
        text@ == RECONNECTED@ ==> f is Reconnected,
        text@ != RECONNECTED@ ==> match json_object_of(text@) {
            None => f is NotObject,
            Some(fields) => f matches TextFrame::Object { msg_type, has_rid } && opt_str_view(msg_type)
                == field_str(fields, MESSAGE_TYPE_KEY@) && has_rid == fields.contains_key(
                REQUEST_ID_KEY@,
            ),
        },
{
    if same_text(text, RECONNECTED) {
        return TextFrame::Reconnected;
    }
    let obj = match json_object_from_str(text) {
        Some(o) => o,
        None => {
            return TextFrame::NotObject;
        },
    };
    let msg_type = match json_field_str(&obj, MESSAGE_TYPE_KEY) {
        Some(s) => Some(s.to_owned()),
        None => None,
    };
    let has_rid = json_has_field(&obj, REQUEST_ID_KEY);
    TextFrame::Object { msg_type, has_rid }
}

} // verus!
