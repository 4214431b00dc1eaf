//! What the library takes on trust: calls into code that Verus has not read.
//! Each contract here is believed, not proved.

use vstd::prelude::*;
use vstd::utf8::{decode_utf8, valid_utf8};

verus! {

/// The text that `String::from_utf8_lossy` makes of `bytes`.
pub uninterp spec fn utf8_lossy(bytes: Seq<u8>) -> Seq<char>;

/// `String::from_utf8_lossy`, made an owned `String`.
///
/// Trusted: the text depends on the bytes alone, and, as std documents, bytes
/// that are valid UTF-8 give the string they encode; only invalid sequences
/// are replaced (by U+FFFD).
#[verifier::external_body]
pub(crate) fn lossy_text(bytes: &[u8]) -> (text: String)
    ensures
        text@ == utf8_lossy(bytes@),
        valid_utf8(bytes@) ==> text@ == decode_utf8(bytes@),
{
    String::from_utf8_lossy(bytes).into_owned()
}

/// Why `hyper::Uri` does not take `text` for a URI, in the words of its
/// error; `None` where it does.
pub uninterp spec fn uri_rejection(text: Seq<char>) -> Option<Seq<char>>;

/// Parses `text` as a `hyper::Uri` (`str::parse`, that is `Uri::from_str`)
/// and keeps of the outcome whether it failed, and the error's `Display`
/// text.
///
/// Trusted: the outcome depends on `text` alone.
#[verifier::external_body]
pub(crate) fn check_uri(text: &str) -> (rejection: Option<String>)
    ensures
        rejection is Some <==> uri_rejection(text@) is Some,
        rejection matches Some(reason) ==> uri_rejection(text@) == Some(reason@),
{
    match text.parse::<hyper::Uri>() {
        Ok(_) => None,
        Err(error) => Some(error.to_string()),
    }
}

/// A character that may stand in the value of an HTTP header: a tab, or
/// anything from the space on but DEL.
pub open spec fn header_value_char(c: char) -> bool {
    c == '\t' || (c >= ' ' && c != '\x7f')
}

/// `text` can be the value of an HTTP header.
pub open spec fn header_value_text(text: Seq<char>) -> bool {
    forall|i: int| 0 <= i < text.len() ==> header_value_char(#[trigger] text[i])
}

/// Whether `hyper::header::HeaderValue::from_str` accepts `text`.
///
/// Trusted: it accepts a string exactly when each of its bytes is a tab or is
/// at least 32 and not 127. The bytes of a character above 127 are all above
/// 127, so the test on bytes is the test on characters stated here.
#[verifier::external_body]
pub(crate) fn is_header_value(text: &str) -> (accepted: bool)
    ensures
        accepted == header_value_text(text@),
{
    hyper::header::HeaderValue::from_str(text).is_ok()
}

/// The text of member `key` of the JSON object that `text` is, as
/// `serde_json` reads it; `None` where `text` is no JSON document, the
/// document is no object, it has no member `key`, or that member is no
/// string.
pub uninterp spec fn json_member_text(text: Seq<char>, key: Seq<char>) -> Option<Seq<char>>;

/// Reads `text` with `serde_json::from_str` into a `serde_json::Value`, looks
/// `key` up with `Value::get` and takes the member's text with
/// `Value::as_str`.
///
/// Trusted: the outcome depends on `text` and `key` alone.
#[verifier::external_body]
pub(crate) fn json_string_member(text: &str, key: &str) -> (member: Option<String>)
    ensures
        member is Some <==> json_member_text(text@, key@) is Some,
        member matches Some(value) ==> json_member_text(text@, key@) == Some(value@),
{
    match serde_json::from_str::<serde_json::Value>(text) {
        Ok(document) => match document.get(key) {
            Some(member) => member.as_str().map(String::from),
            None => None,
        },
        Err(_) => None,
    }
}

/// `num_cpus::get`: the number of processors that this process may run on.
///
/// Nothing is claimed of the number: it is the machine's.
#[verifier::external_body]
pub(crate) fn available_cpus() -> (count: usize) {
    num_cpus::get()
}

} // verus!
