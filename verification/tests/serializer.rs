use cloudevents_amqp::event::{MessageAttributeValue, SpecVersion};
use cloudevents_amqp::message::Error;
use cloudevents_amqp::serializer::AmqpCloudEvent;

use fe2o3_amqp_types::messaging::{Body, Data};
use fe2o3_amqp_types::primitives::{Binary, SimpleValue, Symbol, Timestamp};

#[test]
fn new_message_is_empty() {
    let m = AmqpCloudEvent::new();
    assert!(m.application_properties.0.is_empty());
    assert_eq!(m.content_type, None);
    assert_eq!(m.body, Body::Empty);
}

#[test]
fn spec_version_marker_is_written() {
    let mut m = AmqpCloudEvent::new();
    m.set_spec_version(SpecVersion::V10);
    assert_eq!(
        m.application_properties.0.get("cloudEvents:specversion"),
        Some(&SimpleValue::String(String::from("1.0")))
    );
    assert_eq!(m.application_properties.0.len(), 1);
}

#[test]
fn spec_version_v03_marker() {
    let mut m = AmqpCloudEvent::new();
    m.set_spec_version(SpecVersion::V03);
    assert_eq!(
        m.application_properties.0.get("cloudEvents:specversion"),
        Some(&SimpleValue::String(String::from("0.3")))
    );
}

#[test]
fn spec_version_as_str() {
    assert_eq!(SpecVersion::V10.as_str(), "1.0");
    assert_eq!(SpecVersion::V03.as_str(), "0.3");
}

#[test]
fn attribute_goes_under_namespaced_key() {
    let mut m = AmqpCloudEvent::new();
    let r = m.set_attribute("id", MessageAttributeValue::String(String::from("abc-123")));
    assert!(r.is_ok());
    assert_eq!(
        m.application_properties.0.get("cloudEvents:id"),
        Some(&SimpleValue::String(String::from("abc-123")))
    );
    assert_eq!(m.application_properties.0.len(), 1);
    assert_eq!(m.content_type, None);
    assert_eq!(m.body, Body::Empty);
}

#[test]
fn content_type_text_routes_to_field() {
    let mut m = AmqpCloudEvent::new();
    let r = m.set_attribute(
        "datacontenttype",
        MessageAttributeValue::String(String::from("application/json")),
    );
    assert!(r.is_ok());
    assert_eq!(m.content_type, Some(Symbol::from("application/json")));
    assert!(m.application_properties.0.is_empty());
    assert_eq!(m.application_properties.0.get("cloudEvents:datacontenttype"), None);
}

#[test]
fn content_type_non_text_is_rejected_and_message_untouched() {
    let mut m = AmqpCloudEvent::new();
    m.set_spec_version(SpecVersion::V10);
    let r = m.set_attribute("id", MessageAttributeValue::String(String::from("abc-123")));
    assert!(r.is_ok());
    m.end_with_data(vec![9, 9]);
    let props_before = m.application_properties.clone();
    let ct_before = m.content_type.clone();
    let body_before = m.body.clone();

    let r = m.set_attribute("datacontenttype", MessageAttributeValue::Boolean(true));
    assert_eq!(r, Err(Error::WrongEncoding));
    assert_eq!(m.application_properties, props_before);
    assert_eq!(m.content_type, ct_before);
    assert_eq!(m.body, body_before);
}

#[test]
fn wrong_encoding_description() {
    assert_eq!(Error::WrongEncoding.describe(), "wrong encoding");
}

#[test]
fn attribute_rewrite_keeps_last_value() {
    let mut m = AmqpCloudEvent::new();
    m.set_attribute("id", MessageAttributeValue::String(String::from("first")))
        .unwrap();
    m.set_attribute("id", MessageAttributeValue::String(String::from("second")))
        .unwrap();
    assert_eq!(
        m.application_properties.0.get("cloudEvents:id"),
        Some(&SimpleValue::String(String::from("second")))
    );
    assert_eq!(m.application_properties.0.len(), 1);
}

#[test]
fn spec_version_marker_survives_other_writes() {
    let mut m = AmqpCloudEvent::new();
    m.set_spec_version(SpecVersion::V10);
    m.set_attribute("id", MessageAttributeValue::String(String::from("abc-123")))
        .unwrap();
    m.set_attribute("type", MessageAttributeValue::String(String::from("example")))
        .unwrap();
    m.set_extension("myext", MessageAttributeValue::Integer(7));
    m.end_with_data(vec![1]);
    assert_eq!(
        m.application_properties.0.get("cloudEvents:specversion"),
        Some(&SimpleValue::String(String::from("1.0")))
    );
}

#[test]
fn extension_follows_attribute_rule() {
    let mut m = AmqpCloudEvent::new();
    m.set_extension("myext", MessageAttributeValue::Integer(42));
    assert_eq!(
        m.application_properties.0.get("cloudEvents:myext"),
        Some(&SimpleValue::Long(42))
    );
}

#[test]
fn extension_does_not_special_case_content_type_name() {
    let mut m = AmqpCloudEvent::new();
    m.set_extension(
        "datacontenttype",
        MessageAttributeValue::String(String::from("text/plain")),
    );
    assert_eq!(
        m.application_properties.0.get("cloudEvents:datacontenttype"),
        Some(&SimpleValue::String(String::from("text/plain")))
    );
    assert_eq!(m.content_type, None);
}

#[test]
fn each_value_kind_converts_to_its_wire_counterpart() {
    let mut m = AmqpCloudEvent::new();
    m.set_attribute("b", MessageAttributeValue::Boolean(true)).unwrap();
    m.set_attribute("i", MessageAttributeValue::Integer(-5)).unwrap();
    m.set_attribute("bin", MessageAttributeValue::Binary(vec![1, 2, 3]))
        .unwrap();
    m.set_attribute("u", MessageAttributeValue::Uri(String::from("http://example.com/")))
        .unwrap();
    m.set_attribute("ur", MessageAttributeValue::UriRef(String::from("/x")))
        .unwrap();
    m.set_attribute("t", MessageAttributeValue::DateTime(1234)).unwrap();
    let p = &m.application_properties.0;
    assert_eq!(p.get("cloudEvents:b"), Some(&SimpleValue::Bool(true)));
    assert_eq!(p.get("cloudEvents:i"), Some(&SimpleValue::Long(-5)));
    assert_eq!(
        p.get("cloudEvents:bin"),
        Some(&SimpleValue::Binary(Binary::from(vec![1u8, 2, 3])))
    );
    assert_eq!(
        p.get("cloudEvents:u"),
        Some(&SimpleValue::String(String::from("http://example.com/")))
    );
    assert_eq!(p.get("cloudEvents:ur"), Some(&SimpleValue::String(String::from("/x"))));
    assert_eq!(
        p.get("cloudEvents:t"),
        Some(&SimpleValue::Timestamp(Timestamp::from_milliseconds(1234)))
    );
    assert_eq!(p.len(), 6);
}

#[test]
fn end_with_data_sets_body_only() {
    let mut m = AmqpCloudEvent::new();
    m.set_spec_version(SpecVersion::V10);
    m.end_with_data(vec![10, 20, 30]);
    assert_eq!(m.body, Body::from(Data::from(vec![10u8, 20, 30])));
    assert_eq!(m.content_type, None);
    assert_eq!(m.application_properties.0.len(), 1);
}

#[test]
fn end_with_data_replaces_prior_body() {
    let mut m = AmqpCloudEvent::new();
    m.end_with_data(vec![1]);
    m.end_with_data(vec![2]);
    assert_eq!(m.body, Body::from(Data::from(vec![2u8])));
}

#[test]
fn end_finalizes_without_change() {
    let mut m = AmqpCloudEvent::new();
    m.set_spec_version(SpecVersion::V10);
    let props_before = m.application_properties.clone();
    let finished = m.end();
    assert_eq!(finished.application_properties, props_before);
    assert_eq!(finished.content_type, None);
    assert_eq!(finished.body, Body::Empty);
}

#[test]
fn structured_event_sets_media_type_and_body() {
    let mut m = AmqpCloudEvent::new();
    let payload = vec![123u8, 34, 125];
    m.set_structured_event(payload.clone());
    assert_eq!(
        m.content_type,
        Some(Symbol::from("application/cloudevents+json; charset=utf-8"))
    );
    assert_eq!(m.body, Body::from(Data::from(payload)));
    assert!(m.application_properties.0.is_empty());
}

#[test]
fn structured_event_overwrites_prior_state() {
    let mut m = AmqpCloudEvent::new();
    m.set_spec_version(SpecVersion::V10);
    m.set_attribute("datacontenttype", MessageAttributeValue::String(String::from("text/xml")))
        .unwrap();
    m.end_with_data(vec![0]);
    let payload = vec![42u8];
    m.set_structured_event(payload.clone());
    assert_eq!(
        m.content_type,
        Some(Symbol::from("application/cloudevents+json; charset=utf-8"))
    );
    assert_eq!(m.body, Body::from(Data::from(payload)));
    assert_eq!(
        m.application_properties.0.get("cloudEvents:specversion"),
        Some(&SimpleValue::String(String::from("1.0")))
    );
}
