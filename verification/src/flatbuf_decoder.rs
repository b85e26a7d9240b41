//! Decoders for exchange stream messages: aggregated trades and depth
//! (order book) updates, read from a decoded JSON document.
//!
//! Prices and quantities stay in their decimal text, which is checked to be
//! text that the standard float parser accepts: a field that is not is treated
//! as missing, so the caller's conversion to a double cannot fail.

use crate::float_text::{float_syntax, is_float_text};
use crate::json::{array_member, bool_member, spec_as_array, spec_as_str, str_member, u64_member, JsonValue};
use vstd::prelude::*;

verus! {

/// The text of string member `key`, where it is decimal float text.
pub open spec fn float_text_member(v: JsonValue, key: Seq<char>) -> Option<Seq<char>> {
    match str_member(v, key) {
        Some(t) => if float_syntax(t) {
            Some(t)
        } else {
            None
        },
        None => None,
    }
}

/// An aggregated trade: symbol, price text, quantity text, trade time, and
/// the aggressor side, `"sell"` when the buyer was the maker and `"buy"` otherwise.
pub open spec fn agg_trade_spec(j: JsonValue) -> Option<(Seq<char>, Seq<char>, Seq<char>, u64, Seq<char>)> {
    match (
        str_member(j, "s"@),
        float_text_member(j, "p"@),
        float_text_member(j, "q"@),
        u64_member(j, "T"@),
        bool_member(j, "m"@),
    ) {
        (Some(s), Some(p), Some(q), Some(t), Some(m)) => Some(
            (
                s,
                p,
                q,
                t,
                if m {
                    "sell"@
                } else {
                    "buy"@
                },
            ),
        ),
        _ => None,
    }
}

/// One price level of a depth update: an array whose first two elements are
/// decimal float text (price, quantity).
pub open spec fn level_spec(x: JsonValue) -> Option<(Seq<char>, Seq<char>)> {
    match spec_as_array(x) {
        Some(a) => if a.len() >= 2 {
            match (spec_as_str(a[0]), spec_as_str(a[1])) {
                (Some(p), Some(q)) => if float_syntax(p) && float_syntax(q) {
                    Some((p, q))
                } else {
                    None
                },
                _ => None,
            }
        } else {
            None
        },
        None => None,
    }
}

/// The well-formed levels of a list, in order; the others are dropped.
pub open spec fn levels_spec(xs: Seq<JsonValue>) -> Seq<(Seq<char>, Seq<char>)>
    decreases xs.len(),
{
    if xs.len() == 0 {
        seq![]
    } else {
        let rest = levels_spec(xs.drop_last());
        match level_spec(xs.last()) {
            Some(l) => rest.push(l),
            None => rest,
        }
    }
}

/// A depth update: symbol, final update id, bid levels, ask levels.
pub open spec fn depth_update_spec(j: JsonValue) -> Option<
    (Seq<char>, u64, Seq<(Seq<char>, Seq<char>)>, Seq<(Seq<char>, Seq<char>)>),
> {
    match (str_member(j, "s"@), u64_member(j, "u"@), array_member(j, "b"@), array_member(j, "a"@)) {
        (Some(s), Some(u), Some(b), Some(a)) => Some((s, u, levels_spec(b), levels_spec(a))),
        _ => None,
    }
}

/// The view of a list of text levels.
pub open spec fn levels_view(v: Seq<(String, String)>) -> Seq<(Seq<char>, Seq<char>)> {
    v.map_values(|l: (String, String)| (l.0@, l.1@))
}

/// The text of the string member `key`.
pub fn str_field<'a>(json: &'a JsonValue, key: &str) -> (r: Option<&'a str>)
    ensures
        match r {
            Some(s) => str_member(*json, key@) == Some(s@),
            None => str_member(*json, key@) is None,
        },
{
    match json.get(key) {
        Some(v) => v.as_str(),
        None => None,
    }
}

/// The text of the string member `key`, where it is decimal float text.
pub fn float_text_field<'a>(json: &'a JsonValue, key: &str) -> (r: Option<&'a str>)
    ensures
        match r {
            Some(s) => float_text_member(*json, key@) == Some(s@),
            None => float_text_member(*json, key@) is None,
        },
{
    match str_field(json, key) {
        Some(t) => if is_float_text(t) {
            Some(t)
        } else {
            None
        },
        None => None,
    }
}

/// Decodes an aggregated-trade message into (symbol, price, quantity, trade
/// time, side); `None` unless every field is present with the right type.
pub fn parse_agg_trade(json: &JsonValue) -> (r: Option<(String, String, String, u64, String)>)
    ensures
        match r {
            Some(t) => agg_trade_spec(*json) == Some((t.0@, t.1@, t.2@, t.3, t.4@)),
            None => agg_trade_spec(*json) is None,
        },
        r matches Some(t) ==> (u64_member(*json, "T"@) == Some(t.3) && (t.4@ == "sell"@ <==> bool_member(
            *json,
            "m"@,
        ) == Some(true))),
{
    let symbol = str_field(json, "s")?;
    let price = float_text_field(json, "p")?;
    let qty = float_text_field(json, "q")?;
    let ts = match json.get("T") {
        Some(v) => v.as_u64()?,
        None => return None,
    };
    let maker = match json.get("m") {
        Some(v) => v.as_bool()?,
        None => return None,
    };
    let side = if maker {
        "sell".to_owned()
    } else {
        "buy".to_owned()
    };
    proof {
        lemma_sides_differ();
    }
    Some((symbol.to_owned(), price.to_owned(), qty.to_owned(), ts, side))
}

/// One price level: the first two elements of an array, both decimal float text.
fn parse_level(x: &JsonValue) -> (r: Option<(String, String)>)
    ensures
        match r {
            Some(l) => level_spec(*x) == Some((l.0@, l.1@)),
            None => level_spec(*x) is None,
        },
{
    let arr = x.as_array()?;
    if arr.len() < 2 {
        return None;
    }
    let p = arr[0].as_str()?;
    let q = arr[1].as_str()?;
    if is_float_text(p) && is_float_text(q) {
        Some((p.to_owned(), q.to_owned()))
    } else {
        None
    }
}

/// The well-formed levels of a list, in order.
fn parse_levels(xs: &Vec<JsonValue>) -> (r: Vec<(String, String)>)
    ensures
        levels_view(r@) == levels_spec(xs@),
{
    let mut out: Vec<(String, String)> = Vec::new();
    let mut i: usize = 0;
    while i < xs.len()
        invariant
            0 <= i <= xs@.len(),
            levels_view(out@) == levels_spec(xs@.take(i as int)),
        decreases xs@.len() - i,
    {
        assert(xs@.take(i + 1).drop_last() == xs@.take(i as int));
        assert(xs@.take(i + 1).last() == xs@[i as int]);
        match parse_level(&xs[i]) {
            Some(l) => out.push(l),
            None => {},
        }
        i = i + 1;
    }
    assert(xs@.take(xs@.len() as int) == xs@);
    out
}

/// Decodes a depth-update message into (symbol, final update id, bid
/// levels, ask levels), each level a (price, quantity) pair of decimal text;
/// `None` unless symbol, update id and both level lists are present with the
/// right type. Levels that are not a pair of decimal float text are dropped.
pub fn parse_depth_update(json: &JsonValue) -> (r: Option<
    (String, u64, Vec<(String, String)>, Vec<(String, String)>),
>)
    ensures
        match r {
            Some(d) => depth_update_spec(*json) == Some(
                (d.0@, d.1, levels_view(d.2@), levels_view(d.3@)),
            ),
            None => depth_update_spec(*json) is None,
        },
        r matches Some(d) ==> u64_member(*json, "u"@) == Some(d.1),
{
    let symbol = str_field(json, "s")?;
    let update_id = match json.get("u") {
        Some(v) => v.as_u64()?,
        None => return None,
    };
    let bids = match json.get("b") {
        Some(v) => parse_levels(v.as_array()?),
        None => return None,
    };
    let asks = match json.get("a") {
        Some(v) => parse_levels(v.as_array()?),
        None => return None,
    };
    Some((symbol.to_owned(), update_id, bids, asks))
}

/// An aggregated trade decodes exactly when its symbol, price, quantity,
/// trade time and maker flag are present with the right types (price and
/// quantity as decimal float text); each field of the result is the member of
/// that name, whatever other members the message holds, and the side is
/// `"sell"` exactly when the buyer was the maker (`"m"` is true), `"buy"`
/// exactly when it was not.
pub proof fn lemma_agg_trade_fields(j: JsonValue)
    ensures
        agg_trade_spec(j) is Some <==> {
            &&& str_member(j, "s"@) is Some
            &&& float_text_member(j, "p"@) is Some
            &&& float_text_member(j, "q"@) is Some
            &&& u64_member(j, "T"@) is Some
            &&& bool_member(j, "m"@) is Some
        },
        agg_trade_spec(j) matches Some(t) ==> {
            &&& str_member(j, "s"@) == Some(t.0)
            &&& str_member(j, "p"@) == Some(t.1) && float_syntax(t.1)
            &&& str_member(j, "q"@) == Some(t.2) && float_syntax(t.2)
            &&& u64_member(j, "T"@) == Some(t.3)
            &&& (t.4 == "sell"@ <==> bool_member(j, "m"@) == Some(true))
            &&& (t.4 == "buy"@ <==> bool_member(j, "m"@) == Some(false))
        },
{
    lemma_sides_differ();
}

proof fn lemma_sides_differ()
    ensures
        "sell"@ != "buy"@,
{
    reveal_strlit("sell");
    reveal_strlit("buy");
    assert("sell"@.len() != "buy"@.len());
}

/// A depth update decodes exactly when its symbol, final update id and both
/// level lists are present with the right types; its update id is the final
/// update id `"u"` and its symbol the member `"s"`, whatever other members
/// (such as the first update id `"U"`) the message holds.
pub proof fn lemma_depth_update_fields(j: JsonValue)
    ensures
        depth_update_spec(j) is Some <==> {
            &&& str_member(j, "s"@) is Some
            &&& u64_member(j, "u"@) is Some
            &&& array_member(j, "b"@) is Some
            &&& array_member(j, "a"@) is Some
        },
        depth_update_spec(j) matches Some(d) ==> {
            &&& str_member(j, "s"@) == Some(d.0)
            &&& u64_member(j, "u"@) == Some(d.1)
        },
{
}

} // verus!
