//! Laws of the binding, each stated over the message model and proved once
//! and for all: what a single attribute write may and may not touch, how the
//! reserved content-type attribute is routed, that the spec-version marker
//! survives unrelated writes, and that a repeated write leaves only the last
//! value.

use vstd::prelude::*;

use crate::event::{MessageAttributeValue, SpecVersion};
use crate::message::{
    attribute_prefix, content_type_attribute, prefixed_key, spec_version_key, wire_of,
    MessageView, WireVal,
};

verus! {

/// Two distinct attribute names are mapped to two distinct property keys:
/// the namespaced key determines the name.
pub proof fn lemma_prefixed_key_injective(n1: Seq<char>, n2: Seq<char>)
    requires
        prefixed_key(n1) == prefixed_key(n2),
    ensures
        n1 == n2,
{
    let p = attribute_prefix() + ":"@;
    assert(n1 =~= (p + n1).skip(p.len() as int));
    assert(n2 =~= (p + n2).skip(p.len() as int));
}

/// The reserved spec-version marker key is exactly the namespaced key of the
/// attribute name `specversion`.
pub proof fn lemma_spec_version_key_is_prefixed()
    ensures
        spec_version_key() == prefixed_key("specversion"@),
{
    reveal_strlit("cloudEvents:specversion");
    reveal_strlit("cloudEvents");
    reveal_strlit(":");
    reveal_strlit("specversion");
    assert(spec_version_key() =~= prefixed_key("specversion"@));
}

/// Writing a non-content-type attribute — through `set_attribute` or
/// `set_extension`, whose contracts both state the transition required here —
/// leaves the property map holding the namespaced key with the wire
/// conversion of the value, affects no other key, and leaves the
/// content-type field and the body as they were.
pub proof fn lemma_attribute_write_touches_one_key(
    pre: MessageView,
    post: MessageView,
    name: Seq<char>,
    value: MessageAttributeValue,
)
    requires
        name != content_type_attribute(),
        post == pre.with_property(prefixed_key(name), wire_of(value)),
    ensures
        post.properties.contains_key(prefixed_key(name)),
        post.properties[prefixed_key(name)] == wire_of(value),
        forall|k: Seq<char>|
            k != prefixed_key(name) ==> (post.properties.contains_key(k)
                <==> pre.properties.contains_key(k)),
        forall|k: Seq<char>|
            k != prefixed_key(name) && pre.properties.contains_key(k)
                ==> post.properties[k] == pre.properties[k],
        post.content_type == pre.content_type,
        post.body == pre.body,
{
}

/// Routing the content-type attribute — the transition `set_attribute`
/// states for the reserved name with a text value — sets the dedicated
/// field to exactly that text and leaves the property map untouched: in
/// particular, no namespaced content-type key appears in it.
pub proof fn lemma_content_type_routed_to_field(pre: MessageView, post: MessageView, s: Seq<char>)
    requires
        post == (MessageView { content_type: Option::Some(s), ..pre }),
    ensures
        post.content_type == Option::Some(s),
        post.properties == pre.properties,
        !pre.properties.contains_key(prefixed_key(content_type_attribute()))
            ==> !post.properties.contains_key(prefixed_key(content_type_attribute())),
        post.body == pre.body,
{
}

/// Once the spec-version marker is written, it survives every later call of
/// either contract that does not itself write an attribute named
/// `specversion`: a call leaves the property map alone, or inserts under the
/// namespaced key of some other name — and that key is never the marker key.
pub proof fn lemma_spec_version_marker_persists(
    pre: MessageView,
    post: MessageView,
    version: SpecVersion,
    name: Seq<char>,
    value: WireVal,
)
    requires
        pre.properties.contains_key(spec_version_key()),
        pre.properties[spec_version_key()] == WireVal::Str(version.str_spec()),
        name != "specversion"@,
        post.properties == pre.properties || post.properties == pre.properties.insert(
            prefixed_key(name),
            value,
        ),
    ensures
        post.properties.contains_key(spec_version_key()),
        post.properties[spec_version_key()] == WireVal::Str(version.str_spec()),
{
    lemma_spec_version_key_is_prefixed();
    if prefixed_key(name) == spec_version_key() {
        lemma_prefixed_key_injective(name, "specversion"@);
    }
}

/// Last write wins: writing the same attribute name twice leaves the state
/// that the second write alone would have produced — one entry under the
/// namespaced key, holding the second value.
pub proof fn lemma_attribute_rewrite_keeps_last(
    pre: MessageView,
    name: Seq<char>,
    v1: MessageAttributeValue,
    v2: MessageAttributeValue,
)
    ensures
        pre.with_property(prefixed_key(name), wire_of(v1)).with_property(
            prefixed_key(name),
            wire_of(v2),
        ) == pre.with_property(prefixed_key(name), wire_of(v2)),
{
    let k = prefixed_key(name);
    assert(pre.properties.insert(k, wire_of(v1)).insert(k, wire_of(v2)) =~= pre.properties.insert(
        k,
        wire_of(v2),
    ));
}

} // verus!
