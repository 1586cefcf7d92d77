//! The boundary to `serde_json`: the types that pass through the registry
//! and the one call that reads a configuration resource.

use vstd::prelude::*;

verus! {

/// A JSON value of `serde_json`. The registry stores and hands out such
/// values without looking inside them.
#[verifier::external_type_specification]
#[verifier::external_body]
pub struct ExValue(serde_json::Value);

/// The error of `serde_json` for a text that cannot be read.
#[verifier::external_type_specification]
#[verifier::external_body]
pub struct ExError(serde_json::Error);

/// What `serde_json::from_slice` reads from `bytes` as a JSON object: its
/// members, each with its key and value, in the order in which
/// `serde_json::Map` hands them out; `None` where `bytes` is no JSON text or
/// the text is no object.
pub uninterp spec fn json_object(bytes: Seq<u8>) -> Option<Seq<(Seq<char>, serde_json::Value)>>;

/// The members of a list of owned entries, each key by its text.
pub open spec fn members(entries: Seq<(String, serde_json::Value)>) -> Seq<
    (Seq<char>, serde_json::Value),
> {
    Seq::new(entries.len(), |i: int| (entries[i].0@, entries[i].1))
}

/// Calls `serde_json::from_slice` for a `serde_json::Map<String, Value>` and
/// moves the members of the map into a vector. The contract only names the
/// outcome: the members are `json_object` of the bytes, and the call fails
/// exactly where `json_object` is `None`.
#[verifier::external_body]
pub(crate) fn parse_object(bytes: &[u8]) -> (parsed: Result<
    Vec<(String, serde_json::Value)>,
    serde_json::Error,
>)
    ensures
        match parsed {
            Ok(entries) => json_object(bytes@) == Some(members(entries@)),
            Err(_) => json_object(bytes@) is None,
        },
{
    match serde_json::from_slice::<serde_json::Map<String, serde_json::Value>>(bytes) {
        Ok(object) => Ok(object.into_iter().collect()),
        Err(error) => Err(error),
    }
}

} // verus!
