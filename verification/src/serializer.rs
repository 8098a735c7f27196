//! The binding itself: a transport message under construction and the two
//! serializer contracts — the binary one, which writes the version marker and
//! one message field per attribute, and the structured one, which attaches a
//! pre-encoded event as the whole body in a single call.

use vstd::prelude::*;

use fe2o3_amqp_types::messaging::{ApplicationProperties, Body};
use fe2o3_amqp_types::primitives::Symbol;

use crate::amqp::{
    body_empty, body_from_bytes, body_sections, props_entries, props_insert_bool,
    props_insert_bytes, props_insert_long, props_insert_string, props_insert_timestamp, props_new,
};
use crate::event::{MessageAttributeValue, SpecVersion};
use crate::message::{
    content_type_attribute, is_text, prefixed_key, spec_version_key, structured_media_type,
    wire_of, Error, MessageView, WireVal,
};

verus! {

/// A transport message under construction: the property map, the dedicated
/// content-type field, and the body. Built by a driver through the calls
/// below and then handed to the transport library for transmission.
pub struct AmqpCloudEvent {
    /// The generic key/value metadata section of the message.
    pub application_properties: ApplicationProperties,
    /// The transport-native content-type field.
    pub content_type: Option<Symbol>,
    /// The message body.
    pub body: Body<fe2o3_amqp_types::primitives::Value>,
}

impl View for AmqpCloudEvent {
    type V = MessageView;

    open spec fn view(&self) -> MessageView {
        MessageView {
            properties: props_entries(self.application_properties),
            content_type: match self.content_type {
                Option::Some(s) => Option::Some(s.0@),
                Option::None => Option::None,
            },
            body: body_sections(self.body),
        }
    }
}

/// Whether two string slices hold the same characters.
fn str_eq(a: &str, b: &str) -> (r: bool)
    ensures
        r == (a@ == b@),
{
    let x = a.to_owned();
    let y = b.to_owned();
    x == y
}

/// Converts an attribute value to its wire-native scalar and stores it in
/// the property section under the given key, replacing any earlier entry.
fn props_insert_value(p: &mut ApplicationProperties, key: String, value: MessageAttributeValue)
    ensures
        props_entries(*final(p)) == props_entries(*old(p)).insert(key@, wire_of(value)),
{
    match value {
        MessageAttributeValue::String(s) => props_insert_string(p, key, s),
        MessageAttributeValue::Boolean(b) => props_insert_bool(p, key, b),
        MessageAttributeValue::Integer(i) => props_insert_long(p, key, i),
        MessageAttributeValue::Binary(b) => props_insert_bytes(p, key, b),
        MessageAttributeValue::Uri(s) => props_insert_string(p, key, s),
        MessageAttributeValue::UriRef(s) => props_insert_string(p, key, s),
        MessageAttributeValue::DateTime(ms) => props_insert_timestamp(p, key, ms),
    }
}

impl AmqpCloudEvent {
    /// A fresh message: no property, no content type, no body.
    pub fn new() -> (m: AmqpCloudEvent)
        ensures
            m@ == MessageView::empty(),
    {
        AmqpCloudEvent {
            application_properties: props_new(),
            content_type: Option::None,
            body: body_empty(),
        }
    }

    /// Writes the reserved spec-version marker property with the version's
    /// canonical string form. Touches nothing else.
    pub fn set_spec_version(&mut self, version: SpecVersion)
        ensures
            final(self)@ == old(self)@.with_property(
                spec_version_key(),
                WireVal::Str(version.str_spec()),
            ),
    {
        let key = String::from_str("cloudEvents:specversion");
        let value = String::from_str(version.as_str());
        props_insert_string(&mut self.application_properties, key, value);
    }

    /// Writes one event attribute. The reserved content-type attribute must
    /// hold a text value and is routed to the dedicated content-type field;
    /// with any other value kind the call fails and the message is left
    /// exactly as it was. Every other attribute is converted and written to
    /// the property map under its namespaced key, replacing any earlier
    /// value under that key.
    pub fn set_attribute(&mut self, name: &str, value: MessageAttributeValue) -> (r: Result<
        (),
        Error,
    >)
        ensures
            r is Err <==> (name@ == content_type_attribute() && !is_text(value)),
            r is Err ==> r == Result::<(), Error>::Err(Error::WrongEncoding) && *final(self)
                == *old(self),
            name@ == content_type_attribute() ==> (value matches MessageAttributeValue::String(s)
                ==> final(self)@ == (MessageView {
                content_type: Option::Some(s@),
                ..old(self)@
            })),
            name@ != content_type_attribute() ==> final(self)@ == old(self)@.with_property(
                prefixed_key(name@),
                wire_of(value),
            ),
    {
        if str_eq(name, "datacontenttype") {
            match value {
                MessageAttributeValue::String(s) => {
                    self.content_type = Option::Some(Symbol(s));
                    Result::Ok(())
                },
                _ => Result::Err(Error::WrongEncoding),
            }
        } else {
            let key = String::from_str("cloudEvents").concat(":").concat(name);
            props_insert_value(&mut self.application_properties, key, value);
            Result::Ok(())
        }
    }

    /// Writes an extension attribute. Extensions follow exactly the rule of
    /// non-content-type attributes — namespaced key, converted value, last
    /// write wins — with no special-casing of any name.
    pub fn set_extension(&mut self, name: &str, value: MessageAttributeValue)
        ensures
            final(self)@ == old(self)@.with_property(prefixed_key(name@), wire_of(value)),
    {
        let key = String::from_str("cloudEvents").concat(":").concat(name);
        props_insert_value(&mut self.application_properties, key, value);
    }

    /// Attaches the event payload as the message body, replacing any prior
    /// body. Touches neither the property map nor the content-type field.
    pub fn end_with_data(&mut self, bytes: Vec<u8>)
        ensures
            final(self)@ == (MessageView { body: seq![bytes@], ..old(self)@ }),
    {
        self.body = body_from_bytes(bytes);
    }

    /// Finalizes a binary-mode build with no further change, so payload-less
    /// events complete the chain uniformly. Returns the finished message.
    pub fn end(self) -> (r: AmqpCloudEvent)
        ensures
            r == self,
    {
        self
    }

    /// The single structured-mode call: declares the fixed structured media
    /// type in the content-type field and attaches the pre-encoded event
    /// bytes as the whole body, whatever either held before. The property
    /// map is untouched.
    pub fn set_structured_event(&mut self, bytes: Vec<u8>)
        ensures
            final(self)@ == (MessageView {
                properties: old(self)@.properties,
                content_type: Option::Some(structured_media_type()),
                body: seq![bytes@],
            }),
    {
        self.content_type = Option::Some(
            Symbol(String::from_str("application/cloudevents+json; charset=utf-8")),
        );
        self.body = body_from_bytes(bytes);
    }
}

} // verus!
