//! The abstract event side of the binding: the spec versions an event may
//! carry and the closed union of attribute value kinds.

use vstd::prelude::*;

verus! {

/// Version of the event-model specification an event declares.
#[derive(Clone, Copy, PartialEq, Eq, Structural, Debug)]
pub enum SpecVersion {
    /// Version 0.3 of the event-model specification.
    V03,
    /// Version 1.0 of the event-model specification.
    V10,
}

impl SpecVersion {
    /// Canonical string form of the version, as a sequence of characters.
    pub open spec fn str_spec(self) -> Seq<char> {
        match self {
            SpecVersion::V03 => "0.3"@,
            SpecVersion::V10 => "1.0"@,
        }
    }

    /// Canonical string form of the version.
    pub fn as_str(&self) -> (s: &str)
        ensures
            s@ == self.str_spec(),
    {
        match self {
            SpecVersion::V03 => "0.3",
            SpecVersion::V10 => "1.0",
        }
    }
}

/// An attribute value of the abstract event model: a closed, tagged union of
/// the kinds an event attribute may hold. Timestamps are carried as
/// milliseconds since the Unix epoch; URI kinds carry their textual form.
#[derive(Clone, Debug)]
pub enum MessageAttributeValue {
    /// A text value.
    String(String),
    /// A boolean value.
    Boolean(bool),
    /// A signed 64-bit integer value.
    Integer(i64),
    /// An opaque byte-string value.
    Binary(Vec<u8>),
    /// An absolute URI, in textual form.
    Uri(String),
    /// A URI reference, in textual form.
    UriRef(String),
    /// A point in time, as milliseconds since the Unix epoch.
    DateTime(i64),
}

} // verus!
