# relayer_order_api

The verified core of the Twilight relayer order API, a JSON-RPC service that
accepts trader and lend orders and queues them on Kafka for the relayer core.

- `src/` is the library, checked by Verus:
  - `handler`: the handling of one order request as a state machine: decode
    the hex parameter, have the order read and its proof checked, check the
    amounts of new orders, serialize, queue, answer; `handler_laws` proves
    properties of every run (one answer per request, queueing only after the
    checks pass, failure records only for decoded orders, topics and keys).
  - `hex_codec`, `json`, `decimal`: the encodings the handler relies on
    (hex via the `hex` crate, JSON strings via `serde_json`, decimal text).
  - `config`, `meta`, `table`, `utils`, `types`, `rpc_types`, `kafka_topic`:
    settings with their defaults, request metadata, a string-keyed table,
    the settings store, the order enums and the small request types.
- `app/` is the server around it: environment, Kafka, the HTTP JSON-RPC
  server, the order types of the Twilight SDK, and the floating-point
  position formulas.
- `tests/` exercises the library on concrete values.
