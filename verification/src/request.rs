//! Decoding an opaque request payload into a method name and parameters.
//!
//! The payload is a JSON text of the shape `{"method": "...", "params":
//! [...]}`. Parsing the text is done by `serde_json`; everything after the
//! parse — recognizing the method, checking the parameters, producing the
//! response — is verified code in `node`.

use vstd::prelude::*;

verus! {

/// What one request payload decodes to, as a function of the text alone:
/// `None` when the text is not a JSON object carrying a string `"method"`
/// member; otherwise the method name together with the parameter list,
/// where each string parameter is kept and a parameter of any other shape
/// becomes `None`. A missing or non-array `"params"` member decodes to an
/// empty parameter list.
pub uninterp spec fn decoded_of(payload: Seq<char>) -> Option<
    (Seq<char>, Seq<Option<Seq<char>>>),
>;

/// Relies on `serde_json::from_str::<serde_json::Value>`: parsing is a
/// function of the input text alone; a text that is not valid JSON, or not
/// an object with a string `"method"` member, yields no call.
#[verifier::external_body]
pub(crate) fn parse_call(payload: &str) -> (r: Option<(String, Vec<Option<String>>)>)
    ensures
        r is Some <==> decoded_of(payload@) is Some,
        r matches Some(call) ==> (decoded_of(payload@) matches Some(d) && call.0@ == d.0
            && call.1.deep_view() == d.1),
{
    let object = match serde_json::from_str::<serde_json::Value>(payload) {
        Ok(serde_json::Value::Object(m)) => m,
        _ => return None,
    };
    let method = match object.get("method") {
        Some(serde_json::Value::String(s)) => s.clone(),
        _ => return None,
    };
    let params: Vec<Option<String>> = match object.get("params") {
        Some(serde_json::Value::Array(items)) => items.iter().map(
            |item| if let serde_json::Value::String(s) = item { Some(s.clone()) } else { None },
        ).collect(),
        _ => Vec::new(),
    };
    Some((method, params))
}

} // verus!
