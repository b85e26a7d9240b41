# hft_bot

The verified core of a low-latency trading toolkit, written in Verus.

`src/` is the library. Its functions carry contracts that Verus proves, except
the few trusted wrappers around crossbeam, memmap2, nix and serde_json, whose
contracts are assumed from those crates' sources and documentation (a queue
pop, whose result other threads decide, has none):

- `order_book`: bid/ask books keyed by price, snapshots, sequenced deltas, and
  the laws that tie them together (last write wins, stale updates refused,
  price keys follow price order).
- `json`, `float_text`, `flatbuf_decoder`, `market_data`, `binance_ws`: the
  decoding of exchange stream messages into trades, depth updates and quotes.
- `fix_engine`: a mock FIX session handing out consecutive order ids.
- `ffi_ring`, `shared_mem`, `cpu_affinity`, `io_uring_adapter`, `data_feed`,
  `data_feed_unit`: the parts of the I/O paths that compute, around
  crossbeam, memmap2 and nix.

Prices and quantities cross the library boundary as IEEE-754 bit patterns or as
decimal text; conversion to floating point happens in `app/`, which also holds
the sockets, io_uring, WebSocket, Python and logging code.
