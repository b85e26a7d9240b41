//! Verified core of a low-latency market-data and order-routing toolkit:
//! order-book maintenance, exchange message decoding, mock FIX order entry
//! and the small pieces of arithmetic around them.

pub mod fix_engine;
pub mod order_book;
pub mod json;
pub mod float_text;
pub mod flatbuf_decoder;
pub mod binance_ws;
pub mod market_data;
pub mod ffi_ring;
pub mod io_uring_adapter;
pub mod data_feed;
pub mod data_feed_unit;
pub mod shared_mem;
pub mod cpu_affinity;
