//! Trusted boundary of the crate.
//!
//! Everything in this module either declares an outside type to the verifier
//! or wraps a single call into an outside crate (or into a part of `std` that
//! vstd leaves unspecified) behind a contract that the verifier believes.
//! Each wrapper's doc comment names the function relied on.

use vstd::prelude::*;

verus! {

// ---------------------------------------------------------------------------
// std strings
// ---------------------------------------------------------------------------

/// Relies on `String::push`: appends one character to the string.
#[verifier::external_body]
pub(crate) fn string_push(s: &mut String, c: char)
    ensures
        final(s)@ == old(s)@.push(c),
{
    s.push(c);
}

/// Relies on `String::push_str`: appends a string slice to the string.
#[verifier::external_body]
pub(crate) fn string_push_str(s: &mut String, t: &str)
    ensures
        final(s)@ == old(s)@ + t@,
{
    s.push_str(t);
}

/// Relies on `str::ends_with`: true exactly when `suffix` matches a suffix
/// of `s`.
#[verifier::external_body]
pub(crate) fn str_ends_with(s: &str, suffix: &str) -> (r: bool)
    ensures
        r == (s@.len() >= suffix@.len() && s@.skip(s@.len() - suffix@.len()) == suffix@),
{
    s.ends_with(suffix)
}

// ---------------------------------------------------------------------------
// chrono
// ---------------------------------------------------------------------------

/// Relies on `chrono::Utc::now` and `DateTime::timestamp_millis`: the current
/// wall-clock time.  The result depends on the clock, so nothing is promised
/// of it.
#[verifier::external_body]
pub fn now_millis() -> i64 {
    chrono::Utc::now().timestamp_millis()
}

/// The RFC 3339 rendering chrono gives to a millisecond timestamp (empty for
/// timestamps outside chrono's representable range).
pub uninterp spec fn rfc3339_of(ms: int) -> Seq<char>;

/// Relies on `chrono::DateTime::from_timestamp_millis` and
/// `DateTime::to_rfc3339`: renders a UTC timestamp, a function of the
/// millisecond value alone.
#[verifier::external_body]
pub fn format_rfc3339(ms: i64) -> (r: String)
    ensures
        r@ == rfc3339_of(ms as int),
{
    match chrono::DateTime::from_timestamp_millis(ms) {
        Some(dt) => dt.to_rfc3339(),
        None => String::new(),
    }
}

/// The `%H:%M:%S` clock-of-day rendering chrono gives to a millisecond
/// timestamp (empty for timestamps outside chrono's representable range).
pub uninterp spec fn hms_of(ms: int) -> Seq<char>;

/// Relies on `chrono::DateTime::from_timestamp_millis` and
/// `DateTime::format` with the fixed pattern `%H:%M:%S`, a function of the
/// millisecond value alone.
#[verifier::external_body]
pub fn format_hms(ms: i64) -> (r: String)
    ensures
        r@ == hms_of(ms as int),
{
    match chrono::DateTime::from_timestamp_millis(ms) {
        Some(dt) => dt.format("%H:%M:%S").to_string(),
        None => String::new(),
    }
}

// ---------------------------------------------------------------------------
// uuid
// ---------------------------------------------------------------------------

/// Relies on `uuid::Uuid::new_v4` and `Uuid::as_u128`: a freshly drawn random
/// identifier.  The result is random, so nothing is promised of it.
#[verifier::external_body]
pub fn uuid_new_v4() -> u128 {
    uuid::Uuid::new_v4().as_u128()
}

/// The hyphenated lower-case hexadecimal rendering of a 128-bit identifier.
pub uninterp spec fn uuid_str_of(id: u128) -> Seq<char>;

/// Relies on `uuid::Uuid::from_u128` and the `Display` impl of `Uuid`: the
/// hyphenated rendering, always 36 characters, a function of the identifier
/// alone.
#[verifier::external_body]
pub fn format_uuid(id: u128) -> (r: String)
    ensures
        r@ == uuid_str_of(id),
        r@.len() == 36,
{
    uuid::Uuid::from_u128(id).to_string()
}

// ---------------------------------------------------------------------------
// serde_json
// ---------------------------------------------------------------------------

/// The JSON string literal serde_json produces for a string: opening and
/// closing quotes around the escaped characters.
pub uninterp spec fn json_str_of(s: Seq<char>) -> Seq<char>;

/// A character that serde_json's escape table passes through unchanged:
/// printable ASCII other than the quote and the backslash.
pub open spec fn json_plain_char(c: char) -> bool {
    ' ' <= c <= '~' && c != '"' && c != '\\'
}

/// Relies on `serde_json::to_string` on a `&str`, which cannot fail: the JSON
/// string literal for `s`.  When every character of `s` is passed through
/// serde_json's escape table unchanged, the result is `s` between two quotes.
#[verifier::external_body]
pub fn json_quote(s: &str) -> (r: String)
    ensures
        r@ == json_str_of(s@),
        (forall|i: int| 0 <= i < s@.len() ==> json_plain_char(s@[i])) ==> r@ == seq!['"'] + s@
            + seq!['"'],
{
    match serde_json::to_string(s) {
        Ok(t) => t,
        Err(_) => String::new(),
    }
}

/// The compact re-rendering serde_json gives to a piece of text, when the
/// text parses as a JSON document; `None` when it does not parse.
pub uninterp spec fn json_canon_of(s: Seq<char>) -> Option<Seq<char>>;

/// Relies on `serde_json::from_str::<Value>` and the `Display` impl of
/// `Value`: parses the text and re-renders it compactly, a function of the
/// text alone.
#[verifier::external_body]
pub fn json_reparse(s: &str) -> (r: Option<String>)
    ensures
        match r {
            Some(t) => json_canon_of(s@) == Some(t@),
            None => json_canon_of(s@) is None,
        },
{
    match serde_json::from_str::<serde_json::Value>(s) {
        Ok(v) => Some(v.to_string()),
        Err(_) => None,
    }
}

// ---------------------------------------------------------------------------
// dashmap
// ---------------------------------------------------------------------------

/// Declares `dashmap::DashMap` to the verifier so that it can stand in
/// fields and signatures; its contents are only reached through the wrapped
/// calls beside each use.
#[verifier::external_type_specification]
#[verifier::external_body]
#[verifier::reject_recursive_types(K)]
#[verifier::reject_recursive_types(V)]
#[verifier::reject_recursive_types(S)]
pub struct ExDashMap<K, V, S>(dashmap::DashMap<K, V, S>);

} // verus!
