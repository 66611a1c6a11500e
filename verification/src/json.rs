use vstd::prelude::*;

verus! {

// The registry speaks JSON. Parsing is delegated to serde_json, and each
// reply is read in one trusted step, from the body string to the plain
// values the run needs. Both readings are functions of the body alone,
// so their results carry names that the callers' contracts can speak of.

/// The `token` string an auth reply denotes: Some exactly when the body
/// is a JSON document whose root carries a `token` key holding a string.
/// A function of the body alone.
pub uninterp spec fn token_field_of(body: Seq<char>) -> Option<Seq<char>>;

/// Relies on serde_json::from_str, serde_json::Value::get and
/// serde_json::Value::as_str: reads the `token` string out of an auth
/// reply body, or None when the body is not JSON, the root has no
/// `token` key, or its value is not a string.
#[verifier::external_body]
pub(crate) fn json_token_field(body: &str) -> (r: Option<String>)
    ensures
        r is Some <==> token_field_of(body@) is Some,
        r is Some ==> r->0@ == token_field_of(body@)->0,
{
    match serde_json::from_str::<serde_json::Value>(body) {
        Ok(v) => match v.get("token") {
            Some(t) => t.as_str().map(|s| s.to_string()),
            None => None,
        },
        Err(_) => None,
    }
}

/// The three fields read from one element of a manifest's `layers`
/// array: its `digest` string, its `mediaType` string and its `size`
/// integer, each absent when the element does not carry it in that form.
pub type LayerFields = (Option<String>, Option<String>, Option<u64>);

/// The views of a sequence of read layer fields.
pub open spec fn field_views(fields: Seq<LayerFields>) -> Seq<
    (Option<Seq<char>>, Option<Seq<char>>, Option<u64>),
> {
    fields.map_values(
        |f: LayerFields|
            (
                match f.0 {
                    Some(s) => Some(s@),
                    None => None,
                },
                match f.1 {
                    Some(s) => Some(s@),
                    None => None,
                },
                f.2,
            ),
    )
}

/// The layer fields a manifest reply denotes: Some exactly when the body
/// is a JSON document whose root carries a `layers` array, each array
/// element reduced to its three read fields, in array order. A function
/// of the body alone.
pub uninterp spec fn layer_fields_of(body: Seq<char>) -> Option<
    Seq<(Option<Seq<char>>, Option<Seq<char>>, Option<u64>)>,
>;

/// Relies on serde_json::from_str, serde_json::Value::get,
/// serde_json::Value::as_array, serde_json::Value::as_str and
/// serde_json::Value::as_u64: reads the `layers` array out of a manifest
/// reply body, each element reduced to its `digest`, `mediaType` and
/// `size` fields, or None when the body is not JSON or its root has no
/// `layers` array.
#[verifier::external_body]
pub(crate) fn json_layer_fields(body: &str) -> (r: Option<Vec<LayerFields>>)
    ensures
        r is Some <==> layer_fields_of(body@) is Some,
        r is Some ==> field_views(r->0@) == layer_fields_of(body@)->0,
{
    let parsed = serde_json::from_str::<serde_json::Value>(body).ok()?;
    let arr = parsed.get("layers").and_then(|l| l.as_array())?;
    let mut out: Vec<LayerFields> = Vec::new();
    for elem in arr {
        out.push((
            elem.get("digest").and_then(|d| d.as_str()).map(|s| s.to_string()),
            elem.get("mediaType").and_then(|m| m.as_str()).map(|s| s.to_string()),
            elem.get("size").and_then(|s| s.as_u64()),
        ));
    }
    Some(out)
}

} // verus!
