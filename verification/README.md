# nautilus_architect

A verified library for the Architect venue adapter: the request, parsing and
message-handling logic of its REST and WebSocket clients, written in Verus
with contracts that Verus proves.

## Layout

- `src/common`: constants, credentials, the venue's enumerations, decimal
  numbers and their parsing from the API's numeric strings, fixed-point
  prices and quantities, and string splitting.
- `src/http`: the request state of the REST client (URLs, retry policy,
  authentication headers, rate-limit keys, response status handling), query
  strings, instrument definitions and their conversion to perpetual
  instruments.
- `src/websocket`: message types, the first look at received frames, the
  instrument cache and pending-order table, and the state machines of the
  market data and orders handlers (command in, action out; frame in,
  messages queued).
- `src/python`: the URL getters exposed to Python.
- `tests`: tests of the library on concrete values.
- `app`: what performs I/O around the library: the `reqwest` HTTP client,
  the Tokio runners of the WebSocket handlers, serde copies of the library's
  types, and the conversion to Nautilus instruments.

Calls into `rust_decimal`, `nautilus_model`, `serde_json`,
`serde_urlencoded` and `ahash` stand behind trusted items in `src`, each with
a doc comment that says what its contract claims of the outside code.

## Differences from the adapter it models

- The domain message enums hold only the variants the handlers produce
  today: `ArchitectMdWsMessage` has `Error` and `Reconnected` (no `Data`,
  `Deltas` or `Bar`), and `ArchitectOrdersWsMessage` has `Error`,
  `Reconnected` and `Authenticated` (no order status or fill reports and no
  rejections). The omitted variants carry Nautilus model types and are never
  built by the handlers, which do not parse market data or order events yet.
- Handler commands carry `ArchitectPerpInstrument` (the values a Nautilus
  `CryptoPerpetual` is built from) in place of `InstrumentAny`, and
  `SetClient` carries no client: the runners in `app` hold the WebSocket
  sender.
- Instrument conversion gets or creates its currencies (an unknown code
  becomes a new crypto currency); a currency cannot be made from an empty or
  all-whitespace code, so `parse_perp_instrument` requires valid codes
  (`valid_currency_codes` tests them). A non-positive tick size or size
  increment is an error rather than a panic.
- The HTTP transport in `app` uses `reqwest` directly. The rate limiter of
  the Nautilus network layer (its quota of 10 requests per second, global and
  per route) could not be built here and is not rebuilt, so the rate-limit
  keys computed in `src` are not enforced.
