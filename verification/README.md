# ax_exchange_sdk

A Rust SDK for the ArchitectX exchange whose logic is verified with Verus.

- `src/` is the verified library: the exchange's wire types and their
  conversions, order ids, decimals, instruments and price scales, order
  states, funding-rate schedules, order books, user-name and token checks,
  and the decisions of the clients (request framing and routing, reconnect
  back-off, token reuse, and the URLs of the endpoints). Every public function carries a
  `requires`/`ensures` contract; the laws of the library are public proof
  functions (`lemma_*`). Calls into `chrono`, `chrono-tz`, `regex`, `ulid`,
  `rust_decimal`, `rand`, `serde_json` and `url` go through small trusted wrappers
  whose doc comments say what they assume.
- `app/` is the asynchronous I/O around it: the WebSocket and REST clients
  (`tokio`, `yawc`, `tokio-tungstenite`, `reqwest`), the serde forms of the
  library's types, and the `ArchitectX` entry point.
- `tests/` runs the library on concrete values.
