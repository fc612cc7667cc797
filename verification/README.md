# maviola

Core of a high-level MAVLink communication library, written in Verus: the data structures and
rules are executable Rust whose behaviour is stated in `requires` / `ensures` contracts and
proved.

## Layout

- `src/` — the verified library.
  - `ring` — circular buffer that keeps the newest elements, with its model and laws.
  - `routing`, `broadcast`, `callback` — connection and channel identifiers, broadcast scopes,
    the decision whether an outgoing frame reaches a channel and the scope a callback answers in.
  - `closable`, `flipper` — shared closing states and guarded flags.
  - `node_builder`, `node_conf`, `marker`, `protocol`, `consts` — type-state builder of node
    configurations; `node` — connection state and activation of a node; `network` — network of
    proxy node configurations.
  - `error`, `errors`, `mpmc`, `mpsc_rw`, `transport`, `retry`, `unique_id` — errors,
    channel outcomes, read buffering, transport path checks and identifiers.
- `tests/` — tests that run the compiled library.
- `app/` — plain Rust around the library: I/O transports, async channels and readers/writers,
  connection information with `serde`/`specta` derives, and error types with `thiserror`.
