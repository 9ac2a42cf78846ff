use vstd::prelude::*;

verus! {

/// A character allowed in a header name: a letter, a digit, or one of
/// the token symbols of HTTP.
pub open spec fn is_token_char(c: char) -> bool {
    ||| ('a' <= c && c <= 'z')
    ||| ('A' <= c && c <= 'Z')
    ||| ('0' <= c && c <= '9')
    ||| c == '!' || c == '#' || c == '$' || c == '%' || c == '&' || c == '\''
    ||| c == '*' || c == '+' || c == '-' || c == '.' || c == '^' || c == '_'
    ||| c == '`' || c == '|' || c == '~'
}

/// Text that the HTTP client takes as a header name: between one and 65535
/// token characters.
pub open spec fn header_name_acceptable(s: Seq<char>) -> bool {
    &&& 0 < s.len() <= 65535
    &&& forall|i: int| 0 <= i < s.len() ==> is_token_char(#[trigger] s[i])
}

/// A character allowed in a header value: a tab, or anything but the other
/// control characters and DEL.
pub open spec fn is_value_char(c: char) -> bool {
    (c as u32 >= 32 && c as u32 != 127) || c == '\t'
}

/// Text that the HTTP client takes as a header value.
pub open spec fn header_value_acceptable(s: Seq<char>) -> bool {
    forall|i: int| 0 <= i < s.len() ==> is_value_char(#[trigger] s[i])
}

/// The text of the client's error for a refused header name.
pub open spec fn header_name_refusal() -> Seq<char> {
    "invalid HTTP header name"@
}

/// The text of the client's error for a refused header value.
pub open spec fn header_value_refusal() -> Seq<char> {
    "failed to parse header value"@
}

/// Relies on reqwest::header::HeaderName::from_bytes: it accepts a name
/// exactly when it is non-empty, at most 65535 bytes long, and made of token
/// characters (upper case is folded to lower case); its error displays as
/// "invalid HTTP header name".
#[verifier::external_body]
pub(crate) fn parse_header_name(name: &str) -> (r: Result<(), String>)
    ensures
        r is Ok <==> header_name_acceptable(name@),
        r matches Err(m) ==> m@ == header_name_refusal(),
{
    match reqwest::header::HeaderName::from_bytes(name.as_bytes()) {
        Ok(_) => Ok(()),
        Err(e) => Err(e.to_string()),
    }
}

/// Relies on reqwest::header::HeaderValue::from_str: it accepts a value
/// exactly when every byte is a tab or a byte from 32 up, but 127; its error
/// displays as "failed to parse header value".
#[verifier::external_body]
pub(crate) fn parse_header_value(value: &str) -> (r: Result<(), String>)
    ensures
        r is Ok <==> header_value_acceptable(value@),
        r matches Err(m) ==> m@ == header_value_refusal(),
{
    match reqwest::header::HeaderValue::from_str(value) {
        Ok(_) => Ok(()),
        Err(e) => Err(e.to_string()),
    }
}

} // verus!
