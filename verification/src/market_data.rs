//! Market-data feed helpers: the greeting of the Python extension and the
//! fields of a ticker message that the feed publishes as a quote.

use crate::flatbuf_decoder::{float_text_field, float_text_member, str_field};
use crate::float_text::float_syntax;
use crate::json::{json_document, parse_json, str_member, u64_member, JsonValue};
use vstd::prelude::*;

verus! {

/// The greeting for `name`.
pub fn greeting(name: &str) -> (r: String)
    ensures
        r@ == "Welcome to HFT Bot, "@ + name@ + "!"@,
{
    let mut s = "Welcome to HFT Bot, ".to_owned();
    s.append(name);
    s.append("!");
    s
}

/// A ticker's quote fields: symbol (empty when missing), best bid and best
/// ask as decimal text (`"0"` when missing or not a number), event time
/// (0 when missing).
pub open spec fn ticker_spec(j: JsonValue) -> (Seq<char>, Seq<char>, Seq<char>, u64) {
    (
        match str_member(j, "s"@) {
            Some(s) => s,
            None => ""@,
        },
        match float_text_member(j, "b"@) {
            Some(t) => t,
            None => "0"@,
        },
        match float_text_member(j, "a"@) {
            Some(t) => t,
            None => "0"@,
        },
        match u64_member(j, "E"@) {
            Some(e) => e,
            None => 0,
        },
    )
}

/// Reads the quote fields of a ticker message: (symbol, bid, ask, event time).
pub fn parse_ticker(json: &JsonValue) -> (r: (String, String, String, u64))
    ensures
        (r.0@, r.1@, r.2@, r.3) == ticker_spec(*json),
        match str_member(*json, "b"@) {
            Some(t) => float_syntax(t) ==> r.1@ == t,
            None => r.1@ == "0"@,
        },
        match str_member(*json, "a"@) {
            Some(t) => float_syntax(t) ==> r.2@ == t,
            None => r.2@ == "0"@,
        },
{
    let symbol = match str_field(json, "s") {
        Some(s) => s.to_owned(),
        None => "".to_owned(),
    };
    let bid = match float_text_field(json, "b") {
        Some(t) => t.to_owned(),
        None => "0".to_owned(),
    };
    let ask = match float_text_field(json, "a") {
        Some(t) => t.to_owned(),
        None => "0".to_owned(),
    };
    let ts = match json.get("E") {
        Some(v) => match v.as_u64() {
            Some(e) => e,
            None => 0,
        },
        None => 0,
    };
    (symbol, bid, ask, ts)
}

/// Decodes a ticker message's text and reads its quote fields; `None` where
/// the text is not JSON.
pub fn parse_ticker_text(text: &str) -> (r: Option<(String, String, String, u64)>)
    ensures
        match json_document(text@) {
            None => r is None,
            Some(j) => (r matches Some(t) && (t.0@, t.1@, t.2@, t.3) == ticker_spec(j)),
        },
{
    match parse_json(text) {
        Some(j) => Some(parse_ticker(&j)),
        None => None,
    }
}

/// A ticker's quote reads the members of those names, whatever other members
/// the message holds: the symbol is the string member `"s"` (empty where there
/// is none); the bid is the member `"b"` (best bid price) and the ask the
/// member `"a"` (best ask price) where each is decimal float text, `"0"`
/// otherwise; the time is the integer member `"E"` (0 where there is none).
pub proof fn lemma_ticker_fields(j: JsonValue)
    ensures
        str_member(j, "s"@) matches Some(s) ==> ticker_spec(j).0 == s,
        str_member(j, "s"@) is None ==> ticker_spec(j).0 == ""@,
        match str_member(j, "b"@) {
            Some(t) => if float_syntax(t) {
                ticker_spec(j).1 == t
            } else {
                ticker_spec(j).1 == "0"@
            },
            None => ticker_spec(j).1 == "0"@,
        },
        match str_member(j, "a"@) {
            Some(t) => if float_syntax(t) {
                ticker_spec(j).2 == t
            } else {
                ticker_spec(j).2 == "0"@
            },
            None => ticker_spec(j).2 == "0"@,
        },
        u64_member(j, "E"@) matches Some(e) ==> ticker_spec(j).3 == e,
        u64_member(j, "E"@) is None ==> ticker_spec(j).3 == 0,
{
}

} // verus!
