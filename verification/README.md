# thread_context_pins

Clients of the app server can pin short texts to a conversation thread; the server
stores them in its SQLite state database and hands them to the model as untrusted
additional context on later turns. This crate holds the rules of that feature,
verified with Verus:

- `src/limits.rs`, `src/pagination.rs`: which pin ids and texts are accepted (not
  blank, at most 16 KiB each, at most 16 pins and 64 KiB per thread), and how a
  thread's pins are cut into pages with numeric cursors.
- `src/processor.rs`: a pin request (list, create, update, delete) as a state
  machine. The server performs each action it asks for (looking threads up,
  locating and reconciling rollout files, reading and writing the pins table) and
  feeds the outcome back; `src/processor_laws.rs` proves what every step keeps,
  e.g. that a pin is only written within the limits and that every request is
  answered within ten steps.
- `src/model.rs`, `src/api.rs`, `src/store.rs`: pins as the table and the protocol
  hold them, and the conversion of table rows.
- `src/additional_context.rs`, `src/context_store.rs`, `src/pinned_context.rs`: the
  additional context that pins give, kept in key order, and the store that hands the
  model only what changed since the last turn.
  The map of additional context is a vector kept in key order, with each key once,
  in place of std's `BTreeMap<String, _>`: vstd specifies `BTreeMap` only for keys
  whose `Ord` obeys its specification, which `String`'s does not in vstd, and keys
  its view by `String` values rather than by their text; so nothing could be proved
  of a `BTreeMap<String, _>`. `src/key_order.rs` gives the order of `str`.
- `src/thread_id.rs`, `src/time.rs`, `src/text.rs`: UUIDs (through `uuid`), instants
  (through `chrono`) and the string operations the rest needs.

`app/` is the unverified server side: the SQL queries through `sqlx` and the loop
that drives a request through the server's work.
