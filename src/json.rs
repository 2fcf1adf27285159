use vstd::prelude::*;

verus! {

/// The JSON string literal that encodes `s`: quoted, with the characters
/// that JSON requires escaped.
pub uninterp spec fn json_string_literal(s: Seq<char>) -> Seq<char>;

/// Relies on `serde_json::to_string` applied to a `str`: it writes the JSON
/// string literal for the text, which depends on the text alone. Serializing a
/// `str` does not fail; the error arm only converts the result type.
#[verifier::external_body]
pub(crate) fn json_quote(s: &str) -> (r: String)
    ensures
        r@ == json_string_literal(s@),
{
    serde_json::to_string(s).unwrap_or_default()
}

/// Relies on `uuid::Uuid::new_v4` and its `Display`: a fresh random request id
/// in text form. Nothing is known of its value.
#[verifier::external_body]
pub(crate) fn new_request_id() -> (r: String) {
    uuid::Uuid::new_v4().to_string()
}

/// The text of an optional string.
pub open spec fn opt_view(s: Option<String>) -> Option<Seq<char>> {
    match s {
        Some(t) => Some(t@),
        None => None,
    }
}

/// The JSON literal for a boolean.
pub open spec fn json_bool(b: bool) -> Seq<char> {
    if b {
        "true"@
    } else {
        "false"@
    }
}

/// The JSON value for an optional string: its literal, or `null`.
pub open spec fn json_opt_string(s: Option<Seq<char>>) -> Seq<char> {
    match s {
        Some(t) => json_string_literal(t),
        None => "null"@,
    }
}

/// Appends the JSON literal for a boolean.
pub(crate) fn push_json_bool(out: &mut String, b: bool)
    ensures
        final(out)@ == old(out)@ + json_bool(b),
{
    if b {
        out.append("true");
    } else {
        out.append("false");
    }
}

/// Appends the JSON value for an optional string.
pub(crate) fn push_json_opt_string(out: &mut String, s: &Option<String>)
    ensures
        final(out)@ == old(out)@ + json_opt_string(opt_view(*s)),
{
    match s {
        Some(t) => {
            let q = json_quote(t.as_str());
            out.append(q.as_str());
        },
        None => out.append("null"),
    }
}

} // verus!
