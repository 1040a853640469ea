# libaegis

Client library for components that plug into the Aegis orchestrator over a
Unix socket (newline-delimited JSON envelopes).

- `src/` — the verified library: configuration, the JSON payload model,
  message construction (`protocol`), the decisions taken on every incoming
  message and the reconnect policy (`component`), and the data-stream
  handshake (`data_stream`). Every public function states its result in its
  contract, except the random message id and the clock reading that a new
  envelope carries, of which only the form is stated. The laws of the
  reconnect policy, of state naming and of the shutdown token are proof
  functions beside the code.
- `app/` — the asynchronous runtime: `Component<H>` and the
  `ComponentHandler` trait, `DataStream`, serde forms of the messages, and an
  error type with `Display`. It performs the I/O and carries out the effects
  the library decides on.
- `tests/` — tests of the library on concrete values.
