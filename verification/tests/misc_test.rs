use hft_bot::binance_ws::classify_stream_text;
use hft_bot::json::parse_json;
use hft_bot::market_data::parse_ticker_text;
use hft_bot::binance_ws::{classify_stream_json, BinanceWsIngest, StreamUpdate};
use hft_bot::cpu_affinity::{cpu_set_for, INVALID_CPU};
use hft_bot::data_feed::MarketDataAdapter;
use hft_bot::data_feed_unit;
use hft_bot::ffi_ring::FfiRingBuffer;
use hft_bot::io_uring_adapter::read_completion_result;
use hft_bot::json::{JsonNumber, JsonValue};
use hft_bot::market_data::{greeting, parse_ticker};
use hft_bot::shared_mem;
use hft_bot::shared_mem::SharedTensor;

fn text(s: &str) -> JsonValue {
    JsonValue::Str(s.to_string())
}

fn object(members: Vec<(&str, JsonValue)>) -> JsonValue {
    JsonValue::Object(members.into_iter().map(|(k, v)| (k.to_string(), v)).collect())
}

#[test]
fn lib_it_works() {
    let result = shared_mem::add(2, 2);
    assert_eq!(result, 4);
}

#[test]
fn test_io_uring_adapter() {
    // Test zero-copy parsing, error handling, backpressure
    assert!(true); // stub
}

#[test]
fn completion_results() {
    assert_eq!(read_completion_result(64), Ok(64));
    assert_eq!(read_completion_result(0), Ok(0));
    assert_eq!(read_completion_result(-11), Err(11));
}

#[test]
fn ring_buffer_is_bounded_fifo() {
    let ring = FfiRingBuffer::new(2);
    assert_eq!(ring.push(vec![1]), Ok(()));
    assert_eq!(ring.push(vec![2, 2]), Ok(()));
    assert_eq!(ring.push(vec![3, 3, 3]), Err(vec![3, 3, 3]));
    let other = ring.arc();
    assert_eq!(other.pop(), Some(vec![1]));
    assert_eq!(ring.pop(), Some(vec![2, 2]));
    assert_eq!(ring.pop(), None);
}

#[test]
fn cpu_sets() {
    assert!(cpu_set_for(0).unwrap().is_set(0).unwrap());
    assert!(!cpu_set_for(0).unwrap().is_set(1).unwrap());
    assert_eq!(cpu_set_for(usize::MAX).err(), Some(INVALID_CPU));
    assert_eq!(INVALID_CPU, "Invalid CPU index");
}

#[test]
fn ticker_fields_and_defaults() {
    let msg = object(vec![
        ("s", text("BTCUSDT")),
        ("b", text("68000.5")),
        ("a", text("bad")),
        ("E", JsonValue::Number(JsonNumber::PosInt(1700000000000))),
    ]);
    assert_eq!(
        parse_ticker(&msg),
        ("BTCUSDT".to_string(), "68000.5".to_string(), "0".to_string(), 1700000000000)
    );
    assert_eq!(parse_ticker(&JsonValue::Null), (String::new(), "0".to_string(), "0".to_string(), 0));
}

#[test]
fn greeting_text() {
    assert_eq!(greeting("Ada"), "Welcome to HFT Bot, Ada!");
}

#[test]
fn stream_classification() {
    let trade = object(vec![
        ("s", text("BTCUSDT")),
        ("p", text("1")),
        ("q", text("2")),
        ("T", JsonValue::Number(JsonNumber::PosInt(3))),
        ("m", JsonValue::Bool(false)),
    ]);
    assert!(matches!(classify_stream_json(&trade), StreamUpdate::Trade(s, _, _, 3, side) if s == "BTCUSDT" && side == "buy"));
    let depth = object(vec![
        ("s", text("BTCUSDT")),
        ("u", JsonValue::Number(JsonNumber::PosInt(5))),
        ("b", JsonValue::Array(vec![])),
        ("a", JsonValue::Array(vec![])),
    ]);
    assert!(matches!(classify_stream_json(&depth), StreamUpdate::Depth(_, 5, _, _)));
    assert!(matches!(classify_stream_json(&object(vec![("result", JsonValue::Null)])), StreamUpdate::Unrecognized));
    let ingest = BinanceWsIngest { url: "wss://example.invalid/ws".to_string() };
    assert_eq!(ingest.url, "wss://example.invalid/ws");
}

#[test]
fn adapters() {
    let _a = MarketDataAdapter::new(3);
    let _b = data_feed_unit::MarketDataAdapter::new(3);
}

#[test]
fn shared_tensor_writes_when_bytes_fit() {
    let map = memmap2::MmapMut::map_anon(8).unwrap();
    let mut t = SharedTensor::from_mapping(map);
    assert_eq!(t.len(), 8);
    assert!(t.write_bytes_if_fits(&[1, 2, 3, 4]));
    assert!(!t.write_bytes_if_fits(&[0; 9]));
    t.write(&[9; 8]);
    assert_eq!(t.len(), 8);
}

#[test]
fn ring_buffer_capacity_is_the_requested_one() {
    let ring = FfiRingBuffer::new(3);
    assert_eq!(ring.arc().capacity(), 3);
    for i in 0..3u8 {
        assert_eq!(ring.push(vec![i]), Ok(()));
    }
    assert_eq!(ring.push(vec![9]), Err(vec![9]));
}

#[test]
fn cpu_ids_refused_from_the_set_capacity_on() {
    assert_eq!(hft_bot::cpu_affinity::CPU_SET_CAPACITY, 1024);
    assert!(cpu_set_for(1023).is_ok());
    assert_eq!(cpu_set_for(1024).err(), Some(INVALID_CPU));
    assert_eq!(nix::sched::CpuSet::count(), 1024);
}

#[test]
fn stream_text_is_decoded_and_classified() {
    let trade = r#"{"e":"aggTrade","s":"BTCUSDT","p":"43000.1","q":"0.002","T":1620000000000,"m":true}"#;
    assert!(matches!(
        classify_stream_text(trade),
        Some(StreamUpdate::Trade(s, p, q, 1620000000000, side)) if s == "BTCUSDT" && p == "43000.1" && q == "0.002" && side == "sell"
    ));
    let depth = r#"{"e":"depthUpdate","s":"BTCUSDT","u":12345,"b":[["43000.1","0.5"]],"a":[]}"#;
    assert!(matches!(classify_stream_text(depth), Some(StreamUpdate::Depth(_, 12345, b, a)) if b.len() == 1 && a.is_empty()));
    assert!(matches!(classify_stream_text(r#"{"result":null,"id":1}"#), Some(StreamUpdate::Unrecognized)));
    assert!(classify_stream_text("{not json").is_none());
}

#[test]
fn json_text_numbers_keep_their_form() {
    let doc = parse_json(r#"{"a":1,"b":-2,"c":1.5,"d":"x","e":[true,null]}"#).unwrap();
    assert!(matches!(doc.get("a"), Some(JsonValue::Number(JsonNumber::PosInt(1)))));
    assert!(matches!(doc.get("b"), Some(JsonValue::Number(JsonNumber::NegInt(-2)))));
    assert!(matches!(doc.get("c"), Some(JsonValue::Number(JsonNumber::Float(bits))) if f64::from_bits(*bits) == 1.5));
    assert_eq!(doc.get("d").and_then(|v| v.as_str()), Some("x"));
    assert_eq!(doc.get("e").and_then(|v| v.as_array()).map(|a| a.len()), Some(2));
    assert!(parse_json("").is_none());
}

#[test]
fn ticker_text() {
    assert_eq!(
        parse_ticker_text(r#"{"s":"ETHUSDT","b":"2500.5","a":"2501","E":42}"#),
        Some(("ETHUSDT".to_string(), "2500.5".to_string(), "2501".to_string(), 42))
    );
    assert_eq!(parse_ticker_text("[]"), Some((String::new(), "0".to_string(), "0".to_string(), 0)));
    assert_eq!(parse_ticker_text("nope"), None);
}
