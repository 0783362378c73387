//! What the consumer shows for a message: a header with the time, one line
//! per property, and the payload as text or as pretty-printed JSON.

use crate::message::{Message, MessageView};
use crate::outside::{
    debug_quote, decode_lossy, format_utc, json_rendering, lossy_text, magenta_code, quoted_text,
    red_code, render_json, reset_code, utc_text,
};
use crate::properties::Properties;
use vstd::prelude::*;
use vstd::string::*;
use vstd::utf8::{decode_utf8, valid_utf8};

verus! {

/// A line of output.
#[derive(Debug, PartialEq, Eq)]
pub enum Line {
    /// For the standard output.
    Stdout(String),
    /// A pretty-printed JSON document for the standard output. The caller may
    /// print it in colour.
    Json(String),
    /// For the error stream.
    Stderr(String),
}

/// A line of output, as text.
pub enum LineView {
    Stdout(Seq<char>),
    Json(Seq<char>),
    Stderr(Seq<char>),
}

impl View for Line {
    type V = LineView;

    open spec fn view(&self) -> LineView {
        match self {
            Line::Stdout(text) => LineView::Stdout(text@),
            Line::Json(text) => LineView::Json(text@),
            Line::Stderr(text) => LineView::Stderr(text@),
        }
    }
}

/// The lines of `lines`, as text.
pub open spec fn lines_view(lines: Seq<Line>) -> Seq<LineView> {
    Seq::new(lines.len(), |i: int| lines[i]@)
}

/// The escape sequence for a magenta foreground.
pub open spec fn magenta() -> Seq<char> {
    "\x1b[38;5;5m"@
}

/// The escape sequence for a red foreground.
pub open spec fn red() -> Seq<char> {
    "\x1b[38;5;1m"@
}

/// The escape sequence that restores the default foreground.
pub open spec fn reset() -> Seq<char> {
    "\x1b[39m"@
}

/// `code` where colour is in use, nothing where it is not.
pub open spec fn colour(ansi: bool, code: Seq<char>) -> Seq<char> {
    if ansi {
        code
    } else {
        Seq::empty()
    }
}

/// Whole seconds and remaining nanoseconds of `millis` milliseconds.
pub open spec fn split_millis_spec(millis: u64) -> (i64, u32) {
    ((millis / 1000) as i64, ((millis % 1000) * 1_000_000) as u32)
}

/// The header of a message: two dashes, the time where it can be shown, a colon.
pub open spec fn header_text(stamp: Option<Seq<char>>) -> Seq<char> {
    match stamp {
        Some(shown) => "-- "@ + shown + ":"@,
        None => "-- "@ + ":"@,
    }
}

/// A property as `key=value`, in magenta where colour is in use. The
/// foreground is restored in either case.
pub open spec fn property_text(ansi: bool, key: Seq<char>, value: Seq<char>) -> Seq<char> {
    colour(ansi, magenta()) + key + "="@ + value + reset()
}

/// The warning for a payload that is no JSON document, in red where colour
/// is in use. `quoted` is the payload as quoted text.
pub open spec fn warning_text(ansi: bool, quoted: Seq<char>) -> Seq<char> {
    colour(ansi, red()) + "Value "@ + quoted + " is not JSON"@ + reset()
}

/// One output line per property, in order.
pub open spec fn property_lines(ansi: bool, properties: Seq<(Seq<char>, Seq<char>)>) -> Seq<
    LineView,
> {
    Seq::new(
        properties.len(),
        |i: int| LineView::Stdout(property_text(ansi, properties[i].0, properties[i].1)),
    )
}

/// A payload as text: the text it encodes where it is valid UTF-8, and else
/// that text with a replacement character for what is not.
pub open spec fn payload_text(payload: Seq<u8>) -> Seq<char> {
    if valid_utf8(payload) {
        decode_utf8(payload)
    } else {
        lossy_text(payload)
    }
}

/// The line for a payload. Without JSON rendering it is the payload as
/// text. With it, it is the pretty-printed document where the payload is a
/// JSON document, and else a warning for the error stream, which holds the
/// quoted text and not the raw payload.
pub open spec fn payload_line(ansi: bool, json: bool, payload: Seq<u8>) -> LineView {
    if json {
        match json_rendering(payload) {
            Some(shown) => LineView::Json(shown),
            None => LineView::Stderr(warning_text(ansi, quoted_text(payload_text(payload)))),
        }
    } else {
        LineView::Stdout(payload_text(payload))
    }
}

/// Everything that is shown for the message `m`.
pub open spec fn message_lines(ansi: bool, json: bool, m: MessageView) -> Seq<LineView> {
    let (secs, nanos) = split_millis_spec(m.effective_timestamp());
    seq![LineView::Stdout(header_text(utc_text(secs, nanos)))] + property_lines(ansi, m.properties)
        + seq![payload_line(ansi, json, m.payload)]
}

/// Splits a number of milliseconds into whole seconds and the remaining
/// nanoseconds.
pub fn split_millis(millis: u64) -> (parts: (i64, u32))
    ensures
        parts == split_millis_spec(millis),
        parts.0 * 1000 + parts.1 / 1_000_000 == millis,
        parts.1 % 1_000_000 == 0,
        0 <= parts.0,
        parts.1 < 1_000_000_000,
{
    let secs: u64 = millis / 1000;
    let rest: u64 = millis % 1000;
    (secs as i64, (rest * 1_000_000) as u32)
}

/// The header line for a message whose time is shown as `stamp`.
pub fn header_line(stamp: Option<String>) -> (line: String)
    ensures
        line@ == header_text(
            match stamp {
                Some(shown) => Some(shown@),
                None => None,
            },
        ),
{
    let mut line = String::from_str("-- ");
    match stamp {
        Some(shown) => {
            line.append(shown.as_str());
        },
        None => {},
    }
    line.append(":");
    line
}

/// The line that shows one property.
pub fn property_line(ansi: bool, key: &str, value: &str) -> (line: String)
    ensures
        line@ == property_text(ansi, key@, value@),
{
    let mut line = String::new();
    if ansi {
        line.append(magenta_code());
    }
    assert(line@ =~= colour(ansi, magenta()));
    line.append(key);
    line.append("=");
    line.append(value);
    line.append(reset_code());
    line
}

/// The warning line for a payload that is no JSON document.
pub fn warning_line(ansi: bool, quoted: &str) -> (line: String)
    ensures
        line@ == warning_text(ansi, quoted@),
{
    let mut line = String::new();
    if ansi {
        line.append(red_code());
    }
    assert(line@ =~= colour(ansi, red()));
    line.append("Value ");
    line.append(quoted);
    line.append(" is not JSON");
    line.append(reset_code());
    line
}

/// The output line for a payload.
pub fn render_payload(ansi: bool, json: bool, payload: &Vec<u8>) -> (line: Line)
    ensures
        line@ == payload_line(ansi, json, payload@),
        !json ==> line is Stdout,
        !json && valid_utf8(payload@) ==> line@ == LineView::Stdout(decode_utf8(payload@)),
        json && json_rendering(payload@) is None && valid_utf8(payload@) ==> line@
            == LineView::Stderr(warning_text(ansi, quoted_text(decode_utf8(payload@)))),
        json ==> (line is Json <==> json_rendering(payload@) is Some),
        json ==> (line is Stderr <==> json_rendering(payload@) is None),
{
    if json {
        match render_json(payload) {
            Some(shown) => Line::Json(shown),
            None => {
                let text = decode_lossy(payload);
                let quoted = debug_quote(text.as_str());
                Line::Stderr(warning_line(ansi, quoted.as_str()))
            },
        }
    } else {
        Line::Stdout(decode_lossy(payload))
    }
}

/// The output lines for the properties, in order.
pub fn render_properties(ansi: bool, properties: &Properties) -> (lines: Vec<Line>)
    ensures
        lines_view(lines@) == property_lines(ansi, properties.entries()),
{
    let pairs = properties.to_pairs();
    let mut lines: Vec<Line> = Vec::new();
    let mut i: usize = 0;
    while i < pairs.len()
        invariant
            i <= pairs@.len(),
            pairs@.len() == properties.entries().len(),
            forall|j: int|
                #![trigger properties.entries()[j]]
                0 <= j < pairs@.len() ==> properties.entries()[j] == (pairs@[j].0@, pairs@[j].1@),
            lines@.len() == i,
            forall|j: int|
                #![trigger lines@[j]]
                0 <= j < i ==> lines@[j]@ == property_lines(ansi, properties.entries())[j],
        decreases pairs@.len() - i,
    {
        assert(properties.entries()[i as int] == (pairs@[i as int].0@, pairs@[i as int].1@));
        let line = property_line(ansi, pairs[i].0.as_str(), pairs[i].1.as_str());
        lines.push(Line::Stdout(line));
        i = i + 1;
    }
    assert(lines_view(lines@) =~= property_lines(ansi, properties.entries()));
    lines
}

/// Everything that is shown for `message`: the header with its effective
/// timestamp, its properties, its payload.
pub fn render_message(ansi: bool, json: bool, message: &Message) -> (lines: Vec<Line>)
    ensures
        lines_view(lines@) == message_lines(ansi, json, message@),
        lines@.len() == message@.properties.len() + 2,
{
    let (secs, nanos) = split_millis(message.effective_timestamp());
    let header = header_line(format_utc(secs, nanos));
    let mut lines: Vec<Line> = Vec::new();
    lines.push(Line::Stdout(header));
    let mut shown = render_properties(ansi, &message.properties);
    let ghost first = lines@;
    let ghost middle = shown@;
    lines.append(&mut shown);
    let body = render_payload(ansi, json, &message.payload);
    lines.push(body);
    proof {
        assert(lines@ =~= first + middle + seq![body]);
        assert(lines_view(lines@) =~= message_lines(ansi, json, message@));
    }
    lines
}

} // verus!
