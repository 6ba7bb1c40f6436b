# nautilus_alpaca

The decision logic of an Alpaca adapter for NautilusTrader, verified with Verus.

`src/` is the library. Every executable function there has a `requires`/`ensures` contract
over mathematical models (`Seq`, `Set`, `Map`, `int`) and is proved by Verus:

- `common/`: credentials and key masking, enums, venue URLs, request parameters, text helpers.
- `config.rs`: the data and execution client configurations, their validation and summaries.
- `data.rs`: bar channels, historical timeframes, ranges and paging, response parameters.
- `decimal.rs`: an exact decimal model of the venue's 96-bit decimals.
- `execution/`: order translation and the venue's order rules, reports, account balances,
  trade-update handling, order contexts, fill de-duplication, account refresh and reconnect
  timing.
- `http/`: error classification and retry rules, query parameters, asset parsing.
- `requests/`: parameter checks of every endpoint, pagination, and result ordering.
- `websocket/`: the market-data session (authentication, subscription intent, acknowledgements,
  reconnect replay), channel requests, dispatch and the trade-stream handshake.

Calls into `rust_decimal`, `jiff` and `nautilus-network` stand behind small trusted wrappers
whose contracts state what those crates' sources show; their doc comments say what is left
unstated.

`app/` holds what Verus does not see: serde copies of the library's types, the REST transport
with its retry loop, the market-data stream loop (which runs the session, subscription and
dispatch decisions of the library), and the trade-update stream's handshake and decoding. The
execution client that would drive the library's order translation, trade-update handling,
submission follow-up and reconciliation is not part of `app/`: it implements nautilus's
`ExecutionClient` trait from `nautilus-common`, on which this crate does not depend. Those
decisions stand in `src/` as functions from plain values to plain values.

`tests/` exercises the library on concrete values.
