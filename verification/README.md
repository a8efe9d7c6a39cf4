# proto_tower

Protocol codecs and per-connection protocol state for HTTP/1.1, HTTP/2 and
Kafka, verified with Verus.

- `src/` is the verified library: parsers and encoders of the wire formats,
  the Kafka framing, headers and request/response bookkeeping, and the laws
  that tie them together (`http1/laws.rs`, `http2/laws.rs`, `kafka/laws.rs`).
  Calls into `http`, `parser-helper` and `kafka-protocol` go through small
  trusted wrappers whose contracts are stated next to them.
- `app/` holds the tower services that drive a connection: reading with
  timeouts, calling the inner service, and writing the bytes that the
  library produces.
- `tests/` exercises the library with the real outside crates linked.
