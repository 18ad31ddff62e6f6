use vstd::prelude::*;

use crate::error::CaptureError;
use crate::text::starts_with;

verus! {

/// The string under the top-level `key` of a JSON document, where the body
/// parses as JSON and that key holds a string.
pub uninterp spec fn json_string_field_of(body: Seq<char>, key: Seq<char>) -> Option<Seq<char>>;

/// A character of the Unicode White_Space property.
pub open spec fn is_white_space(c: char) -> bool {
    let u = c as u32;
    ||| 0x09 <= u <= 0x0d
    ||| u == 0x20
    ||| u == 0x85
    ||| u == 0xa0
    ||| u == 0x1680
    ||| 0x2000 <= u <= 0x200a
    ||| u == 0x2028
    ||| u == 0x2029
    ||| u == 0x202f
    ||| u == 0x205f
    ||| u == 0x3000
}

/// `s` without its leading white space.
pub open spec fn trim_start_of(s: Seq<char>) -> Seq<char>
    decreases s.len(),
{
    if s.len() > 0 && is_white_space(s[0]) {
        trim_start_of(s.drop_first())
    } else {
        s
    }
}

/// `s` without its trailing white space.
pub open spec fn trim_end_of(s: Seq<char>) -> Seq<char>
    decreases s.len(),
{
    if s.len() > 0 && is_white_space(s.last()) {
        trim_end_of(s.drop_last())
    } else {
        s
    }
}

/// `s` without leading and trailing white space.
pub open spec fn trim_of(s: Seq<char>) -> Seq<char> {
    trim_end_of(trim_start_of(s))
}

/// Relies on serde_json::from_str into a `serde_json::Value`, then
/// `Value::get(key)` and `Value::as_str`: the string field, if any.
#[verifier::external_body]
fn json_string_field(body: &str, key: &str) -> (r: Option<String>)
    ensures
        match r {
            Some(t) => json_string_field_of(body@, key@) == Some(t@),
            None => json_string_field_of(body@, key@) is None,
        },
{
    let value: serde_json::Value = serde_json::from_str(body).ok()?;
    let text = value.get(key)?.as_str()?;
    Some(text.to_string())
}

/// The key of the transcription in a response body.
pub open spec fn text_key() -> Seq<char> {
    seq!['t', 'e', 'x', 't']
}

/// Relies on str::trim: it removes leading and trailing characters of the
/// White_Space property.
#[verifier::external_body]
fn trim(s: &str) -> (r: String)
    ensures
        r@ == trim_of(s@),
{
    s.trim().to_string()
}

/// The prefix of an authorization header that carries a bearer token.
pub open spec fn bearer_prefix() -> Seq<char> {
    seq!['B', 'e', 'a', 'r', 'e', 'r', ' ']
}

/// The authorization header value for an API key: the key itself where it
/// already carries the bearer prefix, else the key behind that prefix.
pub fn authorization_value(key: &str) -> (r: String)
    ensures
        r@ == if bearer_prefix().is_prefix_of(key@) {
            key@
        } else {
            bearer_prefix() + key@
        },
{
    proof {
        reveal_strlit("Bearer ");
    }
    if starts_with(key, "Bearer ") {
        String::from_str(key)
    } else {
        let mut value = String::from_str("Bearer ");
        value.append(key);
        value
    }
}

/// The text to deliver from the transcription field of a response: trimmed,
/// with one space after it so consecutive transcriptions stay apart. A
/// response without the field is a downstream failure.
pub fn transcript_from_field(field: Option<String>) -> (r: Result<String, CaptureError>)
    ensures
        match field {
            Some(t) => r is Ok && r->Ok_0@ == trim_of(t@).push(' '),
            None => r == Err::<String, CaptureError>(CaptureError::Downstream),
        },
{
    proof {
        reveal_strlit(" ");
    }
    match field {
        Some(t) => {
            let mut text = trim(t.as_str());
            text.append(" ");
            Ok(text)
        },
        None => Err(CaptureError::Downstream),
    }
}

/// The text to deliver from a transcription response: a failed request, or
/// a body without a string `"text"` field, is a downstream failure.
pub fn transcript_from_response(success: bool, body: &str) -> (r: Result<String, CaptureError>)
    ensures
        r is Ok <==> success && json_string_field_of(body@, text_key()) is Some,
        r is Ok ==> r->Ok_0@ == trim_of(json_string_field_of(body@, text_key())->Some_0).push(
            ' ',
        ),
        r is Err ==> r == Err::<String, CaptureError>(CaptureError::Downstream),
{
    if !success {
        return Err(CaptureError::Downstream);
    }
    proof {
        reveal_strlit("text");
        assert("text"@ =~= text_key());
    }
    transcript_from_field(json_string_field(body, "text"))
}

} // verus!
