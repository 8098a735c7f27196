//! The transport side of the binding: declarations of the message library's
//! types and thin trusted wrappers around the calls the binding makes into
//! them. Everything else in the crate is verified against the contracts
//! stated here.

use vstd::prelude::*;

use fe2o3_amqp_types::messaging::{ApplicationProperties, Body, Data};
use fe2o3_amqp_types::primitives::{Binary, SimpleValue, Symbol, Timestamp};

use crate::message::{MessageView, WireVal};

verus! {

#[verifier::external_type_specification]
#[verifier::external_body]
pub struct ExApplicationProperties(ApplicationProperties);

#[verifier::external_type_specification]
#[verifier::external_body]
pub struct ExAmqpValue(fe2o3_amqp_types::primitives::Value);

#[verifier::external_type_specification]
#[verifier::external_body]
#[verifier::reject_recursive_types(T)]
pub struct ExBody<T>(Body<T>);

#[verifier::external_type_specification]
pub struct ExSymbol(pub Symbol);

/// What a property section holds: the map from each key present in it to the
/// wire-native scalar stored under that key.
pub uninterp spec fn props_entries(p: ApplicationProperties) -> Map<Seq<char>, WireVal>;

/// What a message body holds: its data sections, in order, each an opaque
/// byte string. A body with no section at all is modelled as the empty
/// sequence.
pub uninterp spec fn body_sections(b: Body<fe2o3_amqp_types::primitives::Value>) -> Seq<Seq<u8>>;

/// Relies on the derived `ApplicationProperties::default`, which wraps an
/// empty ordered map: the fresh section holds no entry.
#[verifier::external_body]
pub(crate) fn props_new() -> (r: ApplicationProperties)
    ensures
        props_entries(r) == MessageView::empty().properties,
{
    ApplicationProperties::default()
}

/// Relies on `OrderedMap::insert` (reached through the section's public
/// field): the key now holds a string value and keeps its place if it was
/// already present; every other entry is untouched.
#[verifier::external_body]
pub(crate) fn props_insert_string(p: &mut ApplicationProperties, key: String, value: String)
    ensures
        props_entries(*final(p)) == props_entries(*old(p)).insert(key@, WireVal::Str(value@)),
{
    p.0.insert(key, SimpleValue::String(value));
}

/// Relies on `OrderedMap::insert`, as `props_insert_string` does, storing a
/// boolean value.
#[verifier::external_body]
pub(crate) fn props_insert_bool(p: &mut ApplicationProperties, key: String, value: bool)
    ensures
        props_entries(*final(p)) == props_entries(*old(p)).insert(key@, WireVal::Bool(value)),
{
    p.0.insert(key, SimpleValue::Bool(value));
}

/// Relies on `OrderedMap::insert`, as `props_insert_string` does, storing a
/// signed 64-bit integer value.
#[verifier::external_body]
pub(crate) fn props_insert_long(p: &mut ApplicationProperties, key: String, value: i64)
    ensures
        props_entries(*final(p)) == props_entries(*old(p)).insert(key@, WireVal::Long(value as int)),
{
    p.0.insert(key, SimpleValue::Long(value));
}

/// Relies on `OrderedMap::insert`, as `props_insert_string` does, storing an
/// opaque byte string (`Binary::from` only wraps the bytes).
#[verifier::external_body]
pub(crate) fn props_insert_bytes(p: &mut ApplicationProperties, key: String, value: Vec<u8>)
    ensures
        props_entries(*final(p)) == props_entries(*old(p)).insert(key@, WireVal::Bytes(value@)),
{
    p.0.insert(key, SimpleValue::Binary(Binary::from(value)));
}

/// Relies on `OrderedMap::insert`, as `props_insert_string` does, storing a
/// timestamp (`Timestamp::from_milliseconds` only wraps the reading).
#[verifier::external_body]
pub(crate) fn props_insert_timestamp(p: &mut ApplicationProperties, key: String, millis: i64)
    ensures
        props_entries(*final(p)) == props_entries(*old(p)).insert(key@, WireVal::Timestamp(millis as int)),
{
    p.0.insert(key, SimpleValue::Timestamp(Timestamp::from_milliseconds(millis)));
}

/// Relies on `Body::Empty` being the body with no section at all.
#[verifier::external_body]
pub(crate) fn body_empty() -> (b: Body<fe2o3_amqp_types::primitives::Value>)
    ensures
        body_sections(b) == MessageView::empty().body,
{
    Body::Empty
}

/// Relies on `Body::from(Data)`, which wraps the one data section holding
/// exactly the given bytes (`Data::from` only wraps them).
#[verifier::external_body]
pub(crate) fn body_from_bytes(bytes: Vec<u8>) -> (b: Body<fe2o3_amqp_types::primitives::Value>)
    ensures
        body_sections(b) == seq![bytes@],
{
    Body::from(Data::from(bytes))
}

} // verus!
