//! The calls this library makes into other crates and into parts of the
//! standard library that come without a specification.
//!
//! Nothing in this file is proved. Each function states what it relies on
//! from the code it calls; where that cannot be written down in a few lines,
//! the result is given a name and the contract says only that the call
//! returns the named value.

use crate::interval::span_is_short;
use vstd::prelude::*;
use vstd::utf8::{decode_utf8, valid_utf8};

verus! {

/// The text `String::from_utf8_lossy` makes of `bytes`.
pub uninterp spec fn lossy_text(bytes: Seq<u8>) -> Seq<char>;

/// The text that formatting `text` with `{:?}` gives.
pub uninterp spec fn quoted_text(text: Seq<char>) -> Seq<char>;

/// The text chrono shows for the UTC instant `secs` seconds and `nanos`
/// nanoseconds after the epoch; `None` where chrono has no such instant.
pub uninterp spec fn utc_text(secs: i64, nanos: u32) -> Option<Seq<char>>;

/// The pretty-printed form of the JSON document `payload`; `None` where
/// `payload` is no JSON document.
pub uninterp spec fn json_rendering(payload: Seq<u8>) -> Option<Seq<char>>;

/// The compact JSON object with the number `count` under `count_field` and
/// the UTC instant (`secs`, `nanos`) under `time_field`; `None` where chrono
/// has no such instant.
pub uninterp spec fn record_json(
    count_field: Seq<char>,
    count: u64,
    time_field: Seq<char>,
    secs: i64,
    nanos: u32,
) -> Option<Seq<u8>>;

/// The normal form the url crate gives the absolute URL `text`; `None` where
/// it does not parse.
pub uninterp spec fn parsed_url(text: Seq<char>) -> Option<Seq<char>>;

/// The whole seconds and the remaining nanoseconds of the time span `text`,
/// as humantime reads it; `None` where it does not parse.
pub uninterp spec fn parsed_span(text: Seq<char>) -> Option<(u64, u32)>;

/// Calls `String::from_utf8_lossy`. Relied on: the result depends on the
/// bytes alone, and bytes that are valid UTF-8 give the text they encode.
#[verifier::external_body]
pub(crate) fn decode_lossy(bytes: &Vec<u8>) -> (text: String)
    ensures
        text@ == lossy_text(bytes@),
        valid_utf8(bytes@) ==> text@ == decode_utf8(bytes@),
{
    String::from_utf8_lossy(bytes).into_owned()
}

/// Formats `text` with `{:?}`, the `Debug` form of `str`. Relied on: the
/// result depends on the text alone.
#[verifier::external_body]
pub(crate) fn debug_quote(text: &str) -> (quoted: String)
    ensures
        quoted@ == quoted_text(text@),
{
    format!("{:?}", text)
}

/// Calls `chrono::DateTime::from_timestamp` and shows the instant with its
/// `Display` form. Relied on: both depend on the two numbers alone.
#[verifier::external_body]
pub(crate) fn format_utc(secs: i64, nanos: u32) -> (text: Option<String>)
    ensures
        text matches Some(shown) ==> utc_text(secs, nanos) == Some(shown@),
        text is None ==> utc_text(secs, nanos) is None,
{
    chrono::DateTime::from_timestamp(secs, nanos).map(|at| at.to_string())
}

/// Parses `payload` with `serde_json::from_slice` and prints the value with
/// `serde_json::to_string_pretty`. Relied on: the result depends on the
/// bytes alone.
#[verifier::external_body]
pub(crate) fn render_json(payload: &Vec<u8>) -> (text: Option<String>)
    ensures
        text matches Some(shown) ==> json_rendering(payload@) == Some(shown@),
        text is None ==> json_rendering(payload@) is None,
{
    match serde_json::from_slice::<serde_json::Value>(payload) {
        Ok(value) => serde_json::to_string_pretty(&value).ok(),
        Err(_) => None,
    }
}

/// Builds a JSON object of two fields, a number and a chrono UTC instant,
/// and writes it with `serde_json::to_vec`. Relied on: the result depends on
/// the arguments alone.
#[verifier::external_body]
pub(crate) fn encode_record(
    count_field: &str,
    count: u64,
    time_field: &str,
    secs: i64,
    nanos: u32,
) -> (bytes: Option<Vec<u8>>)
    ensures
        bytes matches Some(written) ==> record_json(count_field@, count, time_field@, secs, nanos)
            == Some(written@),
        bytes is None ==> record_json(count_field@, count, time_field@, secs, nanos) is None,
{
    let at = chrono::DateTime::from_timestamp(secs, nanos)?;
    let mut record = serde_json::Map::new();
    record.insert(count_field.to_owned(), serde_json::Value::from(count));
    record.insert(time_field.to_owned(), serde_json::to_value(at).ok()?);
    serde_json::to_vec(&serde_json::Value::Object(record)).ok()
}

/// Calls `url::Url::parse` and takes the URL's text. Relied on: the result
/// depends on the text alone.
#[verifier::external_body]
pub(crate) fn parse_url(text: &str) -> (url: Option<String>)
    ensures
        url matches Some(normal) ==> parsed_url(text@) == Some(normal@),
        url is None ==> parsed_url(text@) is None,
{
    url::Url::parse(text).ok().map(String::from)
}

/// Calls `humantime::parse_duration` and takes the span apart with
/// `Duration::as_secs` and `Duration::subsec_nanos`. Relied on: the result
/// depends on the text alone, and the nanoseconds are less than a second.
///
/// The parser adds up the parts of a span with checked arithmetic, but hands
/// a sum of exactly one second of nanoseconds on to `Duration::new`, which
/// panics where the seconds are already `u64::MAX`. A text of at most eleven
/// digits stays below 10^11 of the largest unit, the year of 31 557 600
/// seconds, and so far below that number of seconds.
#[verifier::external_body]
pub(crate) fn parse_span(text: &str) -> (span: Option<(u64, u32)>)
    requires
        span_is_short(text@),
    ensures
        span matches Some(parts) ==> parsed_span(text@) == Some(parts) && parts.1 < 1_000_000_000,
        span is None ==> parsed_span(text@) is None,
{
    humantime::parse_duration(text).ok().map(|span| (span.as_secs(), span.subsec_nanos()))
}

/// `termion::color::Magenta::fg_str`: the escape sequence that switches the
/// foreground to colour 5 of the 256-colour palette.
#[verifier::external_body]
pub(crate) fn magenta_code() -> (code: &'static str)
    ensures
        code@ == "\x1b[38;5;5m"@,
{
    termion::color::Magenta.fg_str()
}

/// `termion::color::Red::fg_str`: the escape sequence that switches the
/// foreground to colour 1 of the 256-colour palette.
#[verifier::external_body]
pub(crate) fn red_code() -> (code: &'static str)
    ensures
        code@ == "\x1b[38;5;1m"@,
{
    termion::color::Red.fg_str()
}

/// `termion::color::Reset::fg_str`: the escape sequence that restores the
/// default foreground.
#[verifier::external_body]
pub(crate) fn reset_code() -> (code: &'static str)
    ensures
        code@ == "\x1b[39m"@,
{
    termion::color::Reset.fg_str()
}

} // verus!
