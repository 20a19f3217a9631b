use vstd::prelude::*;
use vstd::utf8::{decode_utf8, encode_utf8, valid_utf8};
use crate::text_map::pairs_view;
use base64::Engine;

verus! {

/// The standard, padded base64 text of a byte sequence.
pub uninterp spec fn base64_text(bytes: Seq<u8>) -> Seq<char>;

/// The bytes that a standard, padded base64 text stands for, if it is one.
pub uninterp spec fn base64_bytes(text: Seq<char>) -> Option<Seq<u8>>;

/// The pairs that a query string holds when read as
/// `application/x-www-form-urlencoded`, in the order they are written.
pub uninterp spec fn form_pairs(query: Seq<char>) -> Seq<(Seq<char>, Seq<char>)>;

/// The text of the UTC instant `epoch_millis` milliseconds after the epoch
/// under a strftime pattern, if the instant can be represented.
pub uninterp spec fn time_text(epoch_millis: int, pattern: Seq<char>) -> Option<Seq<char>>;

/// The pattern of the event's `time` field, as in `25/Dec/2024:10:00:00 +0000`.
pub const TIME_PATTERN: &'static str = "%d/%b/%Y:%H:%M:%S %z";

/// A byte that may stand in a header name: a letter, a digit, or one of
/// ``! # $ % & ' * + - . ^ _ ` | ~``.
pub open spec fn is_header_name_byte(b: u8) -> bool {
    ||| 48 <= b <= 57
    ||| 65 <= b <= 90
    ||| 94 <= b <= 122
    ||| b == 33
    ||| 35 <= b <= 39
    ||| b == 42
    ||| b == 43
    ||| b == 45
    ||| b == 46
    ||| b == 124
    ||| b == 126
}

/// A byte that may stand in a header value: a tab, or anything from the
/// space upwards but DEL.
pub open spec fn is_header_value_byte(b: u8) -> bool {
    b == 9 || (b >= 32 && b != 127)
}

/// A well-formed header name: 1 to 65535 bytes, each a header-name byte.
pub open spec fn valid_header_name(name: Seq<char>) -> bool {
    let bytes = encode_utf8(name);
    &&& 1 <= bytes.len() <= 65535
    &&& forall|i: int| 0 <= i < bytes.len() ==> is_header_name_byte(#[trigger] bytes[i])
}

/// A well-formed header value: every byte of its UTF-8 form is a
/// header-value byte.
pub open spec fn valid_header_value(value: Seq<char>) -> bool {
    let bytes = encode_utf8(value);
    forall|i: int| 0 <= i < bytes.len() ==> is_header_value_byte(#[trigger] bytes[i])
}

/// Calls `base64::Engine::encode` on the engine `general_purpose::STANDARD`.
///
/// Trusted: the result is the base64 text of the input, and that text decodes
/// back to the input. The length bound keeps the encoder's size computation
/// from overflowing, on which it would panic.
#[verifier::external_body]
pub(crate) fn base64_encode(bytes: &Vec<u8>) -> (text: String)
    requires
        bytes@.len() <= isize::MAX,
    ensures
        text@ == base64_text(bytes@),
        base64_bytes(text@) == Some(bytes@),
{
    base64::engine::general_purpose::STANDARD.encode(bytes)
}

/// Calls `base64::Engine::decode` on the engine `general_purpose::STANDARD`.
///
/// Trusted: the result is what the text stands for, and `None` where the
/// decoder reports an error.
#[verifier::external_body]
pub(crate) fn base64_decode(text: &str) -> (bytes: Option<Vec<u8>>)
    ensures
        match bytes {
            Some(b) => base64_bytes(text@) == Some(b@),
            None => base64_bytes(text@).is_none(),
        },
{
    base64::engine::general_purpose::STANDARD.decode(text).ok()
}

/// Calls `String::from_utf8` on a copy of the bytes.
///
/// Trusted: the result is the text the bytes encode where they are valid
/// UTF-8, and `None` where they are not.
#[verifier::external_body]
pub(crate) fn text_from_utf8(bytes: &Vec<u8>) -> (text: Option<String>)
    ensures
        match text {
            Some(t) => valid_utf8(bytes@) && t@ == decode_utf8(bytes@),
            None => !valid_utf8(bytes@),
        },
{
    String::from_utf8(bytes.to_vec()).ok()
}

/// Calls `url::form_urlencoded::parse` on the bytes of the query and collects
/// the owned pairs.
///
/// Trusted: the result holds the pairs of the query, in order.
#[verifier::external_body]
pub(crate) fn parse_form(query: &str) -> (pairs: Vec<(String, String)>)
    ensures
        pairs_view(pairs@) == form_pairs(query@),
{
    url::form_urlencoded::parse(query.as_bytes()).into_owned().collect()
}

/// Calls `chrono::DateTime::format` on the UTC instant that
/// `chrono::DateTime::from_timestamp_millis` makes of `epoch_millis`.
///
/// Trusted: the result is the instant's text under the pattern, and `None`
/// where chrono cannot represent the instant. Only the one pattern is
/// admitted: chrono panics on a pattern that it cannot read.
#[verifier::external_body]
pub(crate) fn format_instant(epoch_millis: i64, pattern: &str) -> (text: Option<String>)
    requires
        pattern@ == TIME_PATTERN@,
    ensures
        match text {
            Some(t) => time_text(epoch_millis as int, pattern@) == Some(t@),
            None => time_text(epoch_millis as int, pattern@).is_none(),
        },
{
    let instant = chrono::DateTime::from_timestamp_millis(epoch_millis)?;
    Some(instant.format(pattern).to_string())
}

/// Calls `HeaderName::try_from` of the `http` crate, as axum hands it on.
///
/// Trusted: the name is accepted exactly when it has 1 to 65535 bytes and
/// every one of them is a header-name byte.
#[verifier::external_body]
pub(crate) fn header_name_accepted(name: &str) -> (accepted: bool)
    ensures
        accepted == valid_header_name(name@),
{
    axum::http::HeaderName::try_from(name).is_ok()
}

/// Calls `HeaderValue::from_str` of the `http` crate, as axum hands it on.
///
/// Trusted: the value is accepted exactly when every byte of it is a
/// header-value byte.
#[verifier::external_body]
pub(crate) fn header_value_accepted(value: &str) -> (accepted: bool)
    ensures
        accepted == valid_header_value(value@),
{
    axum::http::HeaderValue::from_str(value).is_ok()
}

} // verus!
