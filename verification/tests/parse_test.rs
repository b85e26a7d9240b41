use hft_bot::flatbuf_decoder::{parse_agg_trade, parse_depth_update};
use hft_bot::json::{JsonNumber, JsonValue};

fn text(s: &str) -> JsonValue {
    JsonValue::Str(s.to_string())
}

fn object(members: Vec<(&str, JsonValue)>) -> JsonValue {
    JsonValue::Object(members.into_iter().map(|(k, v)| (k.to_string(), v)).collect())
}

fn level(p: &str, q: &str) -> JsonValue {
    JsonValue::Array(vec![text(p), text(q)])
}

fn as_f64(s: &str) -> f64 {
    s.parse::<f64>().unwrap()
}

#[test]
fn test_parse_agg_trade() {
    let msg = object(vec![
        ("e", text("aggTrade")),
        ("s", text("BTCUSDT")),
        ("p", text("43000.1")),
        ("q", text("0.002")),
        ("T", JsonValue::Number(JsonNumber::PosInt(1620000000000))),
        ("m", JsonValue::Bool(true)),
    ]);
    let parsed = parse_agg_trade(&msg).unwrap();
    assert_eq!(parsed.0, "BTCUSDT");
    assert_eq!(as_f64(&parsed.1), 43000.1);
    assert_eq!(as_f64(&parsed.2), 0.002);
    assert_eq!(parsed.3, 1620000000000);
    assert_eq!(parsed.4, "sell");
}

#[test]
fn test_parse_depth_update() {
    let msg = object(vec![
        ("e", text("depthUpdate")),
        ("s", text("BTCUSDT")),
        ("u", JsonValue::Number(JsonNumber::PosInt(12345))),
        ("b", JsonValue::Array(vec![level("43000.1", "0.5"), level("42999.9", "1.0")])),
        ("a", JsonValue::Array(vec![level("43001.0", "0.3")])),
    ]);
    let parsed = parse_depth_update(&msg).unwrap();
    let to_f64 = |v: &Vec<(String, String)>| -> Vec<(f64, f64)> {
        v.iter().map(|(p, q)| (as_f64(p), as_f64(q))).collect()
    };
    assert_eq!(parsed.0, "BTCUSDT");
    assert_eq!(parsed.1, 12345);
    assert_eq!(to_f64(&parsed.2), vec![(43000.1, 0.5), (42999.9, 1.0)]);
    assert_eq!(to_f64(&parsed.3), vec![(43001.0, 0.3)]);
}

#[test]
fn agg_trade_buyer_taker_is_buy() {
    let msg = object(vec![
        ("s", text("ETHUSDT")),
        ("p", text("2500")),
        ("q", text("1e-3")),
        ("T", JsonValue::Number(JsonNumber::PosInt(7))),
        ("m", JsonValue::Bool(false)),
    ]);
    let parsed = parse_agg_trade(&msg).unwrap();
    assert_eq!(parsed, ("ETHUSDT".to_string(), "2500".to_string(), "1e-3".to_string(), 7, "buy".to_string()));
}

#[test]
fn agg_trade_rejects_bad_fields() {
    let good = |p: &str, t: JsonValue, m: JsonValue| {
        object(vec![("s", text("X")), ("p", text(p)), ("q", text("1")), ("T", t), ("m", m)])
    };
    let pos = |n: u64| JsonValue::Number(JsonNumber::PosInt(n));
    assert!(parse_agg_trade(&good("1.5", pos(1), JsonValue::Bool(true))).is_some());
    assert!(parse_agg_trade(&good("abc", pos(1), JsonValue::Bool(true))).is_none());
    assert!(parse_agg_trade(&good(" 1.5", pos(1), JsonValue::Bool(true))).is_none());
    assert!(parse_agg_trade(&good("1.5", JsonValue::Number(JsonNumber::NegInt(-1)), JsonValue::Bool(true))).is_none());
    assert!(parse_agg_trade(&good("1.5", JsonValue::Number(JsonNumber::Float(1.0f64.to_bits())), JsonValue::Bool(true))).is_none());
    assert!(parse_agg_trade(&good("1.5", pos(1), text("true"))).is_none());
    assert!(parse_agg_trade(&JsonValue::Array(vec![])).is_none());
    assert!(parse_agg_trade(&JsonValue::Null).is_none());
}

#[test]
fn depth_update_drops_malformed_levels() {
    let msg = object(vec![
        ("s", text("BTCUSDT")),
        ("u", JsonValue::Number(JsonNumber::PosInt(9))),
        (
            "b",
            JsonValue::Array(vec![
                level("1.0", "2.0"),
                JsonValue::Array(vec![text("3.0")]),
                level("x", "2.0"),
                JsonValue::Array(vec![text("4.0"), JsonValue::Bool(true)]),
                JsonValue::Array(vec![text("5.0"), text("6.0"), text("extra")]),
                text("7.0"),
            ]),
        ),
        ("a", JsonValue::Array(vec![])),
    ]);
    let parsed = parse_depth_update(&msg).unwrap();
    assert_eq!(
        parsed.2,
        vec![("1.0".to_string(), "2.0".to_string()), ("5.0".to_string(), "6.0".to_string())]
    );
    assert!(parsed.3.is_empty());
}

#[test]
fn depth_update_needs_both_sides() {
    let msg = object(vec![
        ("s", text("BTCUSDT")),
        ("u", JsonValue::Number(JsonNumber::PosInt(9))),
        ("b", JsonValue::Array(vec![])),
    ]);
    assert!(parse_depth_update(&msg).is_none());
}
