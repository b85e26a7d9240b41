//! Exchange WebSocket ingest: the stream's settings and the classification of
//! each decoded text message, which decides what the ingest loop does with it.

use crate::flatbuf_decoder::{
    agg_trade_spec,
    depth_update_spec,
    levels_view,
    parse_agg_trade,
    parse_depth_update,
};
use crate::json::{json_document, parse_json, JsonValue};
use vstd::prelude::*;

verus! {

/// A WebSocket market-data ingest task.
pub struct BinanceWsIngest {
    pub url: String,
}

/// What a decoded text message of the stream is.
pub enum StreamUpdate {
    /// An aggregated trade: symbol, price text, quantity text, trade time, side.
    Trade(String, String, String, u64, String),
    /// A depth update: symbol, final update id, bid levels, ask levels.
    Depth(String, u64, Vec<(String, String)>, Vec<(String, String)>),
    /// Neither.
    Unrecognized,
}

/// A message is a trade where it decodes as one; otherwise a depth update
/// where it decodes as one; otherwise unrecognized.
pub open spec fn classify_spec(j: JsonValue, u: StreamUpdate) -> bool {
    match agg_trade_spec(j) {
        Some(t) => u matches StreamUpdate::Trade(s, p, q, ts, side) && t == (s@, p@, q@, ts, side@),
        None => match depth_update_spec(j) {
            Some(d) => u matches StreamUpdate::Depth(s, id, b, a) && d == (
                s@,
                id,
                levels_view(b@),
                levels_view(a@),
            ),
            None => u is Unrecognized,
        },
    }
}

/// Classifies a decoded text message of the stream.
pub fn classify_stream_json(json: &JsonValue) -> (u: StreamUpdate)
    ensures
        classify_spec(*json, u),
{
    if let Some((s, p, q, ts, side)) = parse_agg_trade(json) {
        StreamUpdate::Trade(s, p, q, ts, side)
    } else if let Some((s, id, b, a)) = parse_depth_update(json) {
        StreamUpdate::Depth(s, id, b, a)
    } else {
        StreamUpdate::Unrecognized
    }
}

/// Decodes and classifies a text message of the stream: `None` where the
/// text is not JSON.
pub fn classify_stream_text(text: &str) -> (u: Option<StreamUpdate>)
    ensures
        match json_document(text@) {
            None => u is None,
            Some(j) => (u matches Some(x) && classify_spec(j, x)),
        },
{
    match parse_json(text) {
        Some(j) => Some(classify_stream_json(&j)),
        None => None,
    }
}

} // verus!
