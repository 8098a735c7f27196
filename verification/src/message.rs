//! The mathematical model of a transport message under construction, the
//! wire-level value model, and the binding's error type.

use vstd::prelude::*;

use crate::event::MessageAttributeValue;

verus! {

/// Error raised by the binding. The only failure the binding knows is the
/// reserved content-type attribute being handed a value that is not text.
#[derive(Clone, Copy, PartialEq, Eq, Structural, Debug)]
pub enum Error {
    /// The content-type attribute was given a non-text value.
    WrongEncoding,
}

impl Error {
    /// A short human-readable description of the error.
    pub fn describe(&self) -> (s: &str)
        ensures
            s@ == "wrong encoding"@,
    {
        "wrong encoding"
    }
}

/// Model of a wire-native scalar value: what one entry of the message's
/// property map holds, stripped of its transport encoding.
pub enum WireVal {
    /// A character string.
    Str(Seq<char>),
    /// A boolean.
    Bool(bool),
    /// A signed 64-bit integer.
    Long(int),
    /// An opaque byte string.
    Bytes(Seq<u8>),
    /// Milliseconds since the Unix epoch.
    Timestamp(int),
}

/// The total, one-to-one mapping from an abstract attribute value to the
/// wire-native scalar that carries it: text, boolean, integer and binary map
/// to their direct counterparts, both URI kinds travel as their textual form,
/// and a timestamp travels as its millisecond reading.
pub open spec fn wire_of(v: MessageAttributeValue) -> WireVal {
    match v {
        MessageAttributeValue::String(s) => WireVal::Str(s@),
        MessageAttributeValue::Boolean(b) => WireVal::Bool(b),
        MessageAttributeValue::Integer(i) => WireVal::Long(i as int),
        MessageAttributeValue::Binary(b) => WireVal::Bytes(b@),
        MessageAttributeValue::Uri(s) => WireVal::Str(s@),
        MessageAttributeValue::UriRef(s) => WireVal::Str(s@),
        MessageAttributeValue::DateTime(ms) => WireVal::Timestamp(ms as int),
    }
}

/// Whether an attribute value is a text value: the only kind the reserved
/// content-type attribute accepts.
pub open spec fn is_text(v: MessageAttributeValue) -> bool {
    v is String
}

/// Model of a transport message under construction: the property map, the
/// dedicated content-type field, and the body as its sequence of opaque data
/// sections (empty while no body has been attached).
pub struct MessageView {
    /// The generic key/value metadata store of the message.
    pub properties: Map<Seq<char>, WireVal>,
    /// The transport-native content-type field, distinct from the map.
    pub content_type: Option<Seq<char>>,
    /// The data sections of the body, each an opaque byte string.
    pub body: Seq<Seq<u8>>,
}

impl MessageView {
    /// The model of a freshly created message: nothing set yet.
    pub open spec fn empty() -> MessageView {
        MessageView {
            properties: Map::empty(),
            content_type: None,
            body: Seq::empty(),
        }
    }

    /// The same message with one property written: the given key now maps to
    /// the given value, and every other key is untouched.
    pub open spec fn with_property(self, key: Seq<char>, value: WireVal) -> MessageView {
        MessageView { properties: self.properties.insert(key, value), ..self }
    }
}

/// The namespace token put in front of every attribute name on the wire.
pub open spec fn attribute_prefix() -> Seq<char> {
    "cloudEvents"@
}

/// The property-map key under which an attribute of the given name is
/// written: the fixed namespace prefix, a colon, then the name.
pub open spec fn prefixed_key(name: Seq<char>) -> Seq<char> {
    attribute_prefix() + ":"@ + name
}

/// The reserved property-map key of the spec-version marker.
pub open spec fn spec_version_key() -> Seq<char> {
    "cloudEvents:specversion"@
}

/// The reserved attribute name that routes to the content-type field.
pub open spec fn content_type_attribute() -> Seq<char> {
    "datacontenttype"@
}

/// The fixed media type declared on a structured-mode message.
pub open spec fn structured_media_type() -> Seq<char> {
    "application/cloudevents+json; charset=utf-8"@
}

} // verus!
