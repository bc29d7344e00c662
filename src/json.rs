use vstd::prelude::*;

verus! {

/// `serde_json::Value`, carried through the library without being looked into.
#[verifier::external_type_specification]
#[verifier::external_body]
pub struct ExValue(serde_json::Value);

/// What `serde_json::Value::pointer` finds in `v` at `pointer`.
pub uninterp spec fn json_pointer(v: serde_json::Value, pointer: Seq<char>) -> Option<serde_json::Value>;

/// The text of `v` where `serde_json::Value::as_str` finds `v` to be a string.
pub uninterp spec fn json_str(v: serde_json::Value) -> Option<Seq<char>>;

/// Relies on `serde_json::Value::pointer`: looks a value up by a JSON pointer
/// (`"/location"` names the member `location` of an object). What it finds
/// depends on the value and the pointer alone.
pub assume_specification<'a>[ serde_json::Value::pointer ](
    v: &'a serde_json::Value,
    pointer: &str,
) -> (r: Option<&'a serde_json::Value>)
    ensures
        match r {
            Some(m) => json_pointer(*v, pointer@) == Some(*m),
            None => json_pointer(*v, pointer@) is None,
        },
;

/// Relies on `serde_json::Value::as_str`: the text of a JSON string, `None`
/// for any other kind of value; it depends on the value alone.
pub assume_specification<'a>[ serde_json::Value::as_str ](
    v: &'a serde_json::Value,
) -> (r: Option<&'a str>)
    ensures
        match r {
            Some(t) => json_str(*v) == Some(t@),
            None => json_str(*v) is None,
        },
;

/// Relies on the `Clone` impl that `serde_json::Value` derives; it is used by
/// the derived `Clone` of the library's types, which claim nothing of it.
pub assume_specification[ <serde_json::Value as Clone>::clone ](
    v: &serde_json::Value,
) -> serde_json::Value;

} // verus!
