//! JSON text of request bodies.
use vstd::prelude::*;

verus! {

/// The compact JSON text of an object whose members are the given
/// `(name, string value)` pairs, as serde_json writes it.
pub uninterp spec fn json_object_text(members: Seq<(Seq<char>, Seq<char>)>) -> Seq<char>;

/// The pairs of strings as pairs of character sequences.
pub open spec fn member_views(members: Seq<(String, String)>) -> Seq<(Seq<char>, Seq<char>)> {
    members.map_values(|m: (String, String)| (m.0@, m.1@))
}

/// Relies on serde_json: a `Map` collected from the pairs, each value a
/// `Value::String`, written out by `Value`'s `Display` as compact JSON text.
/// The text depends on the pairs alone.
#[verifier::external_body]
pub(crate) fn encode_json_object(members: &Vec<(String, String)>) -> (r: String)
    ensures
        r@ == json_object_text(member_views(members@)),
{
    let map: serde_json::Map<String, serde_json::Value> = members
        .iter()
        .map(|(k, v)| (k.clone(), serde_json::Value::String(v.clone())))
        .collect();
    serde_json::Value::Object(map).to_string()
}

} // verus!
