# spin_apps

Verified request-handling logic for a family of Spin applications, written
in Verus.

- `src/` — the library. Each module holds one application's decisions as
  functions from plain values (route parameters, outcomes of store
  operations, configuration values) to plain values (HTTP responses, store
  commands, rows to insert):
  `kv_showcase`, `wasi_kv`, `screen_mode`, `simple_kv`, `outbound`,
  `app_vars`, `booth_volume`. Shared pieces: `response` (the response
  model), `decimal` (numeral parsing and rendering), `text` (joining),
  `utf8_text` and `json` (decoding and encoding, through the standard
  library and `serde_json`).
- `app/` — the Spin components: they read requests, variables and stores,
  call the library, perform the store and network operations it names, and
  turn its responses into `spin_sdk` responses.
- `tests/` — tests of the library on concrete values.
