//! A verified protocol binding between an abstract structured-event model
//! and an AMQP transport message. In binary mode every event attribute
//! becomes an individually addressable message field under a fixed namespace
//! prefix, with the reserved content-type attribute routed to the message's
//! dedicated content-type field; in structured mode the whole pre-encoded
//! event is attached as the body in one call, under a fixed media type.

pub mod event;
pub mod message;
pub mod amqp;
pub mod serializer;
pub mod laws;
