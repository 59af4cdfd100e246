# opencord

The core of a Discord client platform: REST routes and payload types, the
gateway identify/resume/heartbeat state machine, reconnect back-off, voice
gateway frames and UDP discovery packets, gateway-session persistence, and
the decisions of an app-facing HTTP service (sessions, OAuth bookkeeping,
voice-session ownership, realtime envelopes). The library is written in
Verus and every function in `src/` carries a checked contract.

## Layout

- `src/` — the verified library, one module per concern:
  `gateway` (protocol and state machine), `runtime` (back-off and the
  decisions of the connection loop), `voice`, `api_types` and `routes`,
  `http` (endpoints and rate-limit retries), `storage`, `auth`, `client`
  (gateway start-up and persistence), `service`, `ffi`, `persistence`,
  `config`; `json`, `urls` and `time` hold the trusted calls into
  `serde_json`, `url` and `std::time`, and `text` and `table` the text and
  keyed-table helpers.
- `tests/` — unit and scenario tests of the library.
- `app/` — the program around it: the Axum service, reqwest and
  tokio-tungstenite I/O, the Postgres store, the C interface, and the serde
  shapes of the library's types.
