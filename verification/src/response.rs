//! Structured-text responses: a success carries a result value, an error
//! carries a numeric code and a message. Every outcome of executing a
//! request is rendered through these, so a caller never sees anything but
//! one of the two shapes.

use vstd::prelude::*;
use vstd::string::StringExecFns;

verus! {

/// A success response around an already rendered result value.
pub open spec fn success_text(body: Seq<char>) -> Seq<char> {
    "{\"result\":"@ + body + "}"@
}

/// An error response around an already rendered code and a plain message.
pub open spec fn error_text(code: Seq<char>, message: Seq<char>) -> Seq<char> {
    "{\"error\":{\"code\":"@ + code + ",\"message\":\""@ + message + "\"}}"@
}

/// The response to a payload that does not decode to any call.
pub open spec fn parse_error_text() -> Seq<char> {
    error_text("-32700"@, "parse error"@)
}

/// The response to a call whose method tag the node does not know.
pub open spec fn method_not_found_text() -> Seq<char> {
    error_text("-32601"@, "method not found"@)
}

/// The response to a known method called with unusable parameters.
pub open spec fn invalid_params_text() -> Seq<char> {
    error_text("-32602"@, "invalid params"@)
}

/// Render a success response around `body`.
pub fn success_string(body: &str) -> (s: String)
    ensures
        s@ == success_text(body@),
{
    let mut s = String::new();
    s.append("{\"result\":");
    s.append(body);
    s.append("}");
    proof {
        assert(s@ =~= success_text(body@));
    }
    s
}

/// Render an error response around `code` and `message`.
pub fn error_string(code: &str, message: &str) -> (s: String)
    ensures
        s@ == error_text(code@, message@),
{
    let mut s = String::new();
    s.append("{\"error\":{\"code\":");
    s.append(code);
    s.append(",\"message\":\"");
    s.append(message);
    s.append("\"}}");
    proof {
        assert(s@ =~= error_text(code@, message@));
    }
    s
}

} // verus!
