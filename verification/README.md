# aria2_api

A client for aria2's JSON-RPC interface over a WebSocket, with its logic verified by Verus.

- `src/` is the library. It builds the requests and their texts (`client`, `request`, `method`),
  finds the waiting call that a response is for (`client`, `id_map`), and reads what a result
  amounts to (`response`, `records`, `decode`). `json` holds JSON values and the calls into
  `serde_json`; `text` holds numerals and the texts that `{:?}` shows. `laws` states and proves
  what holds of the client as a whole.
- `app/` runs the library on tokio: the connection, the channels, the timeouts, and the parsing
  of response objects with serde.
- `tests/` runs the library on concrete values.
