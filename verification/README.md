# synapse-mcp

The decisions of a daemon that lets an agent see and act on a desktop over the Model Context
Protocol, written in Verus: what a tool call is answered, what is perceived, pressed, recorded,
suggested and started, and in which order the steps are taken.

- `src/` is the library. Its functions have contracts that Verus proves, with one exception: the
  private wrappers and declarations for what `chrono`, `serde_json`, `regex` and the standard library
  do (in `clock.rs`, `text.rs`, `http/session.rs` and `m3/reflex/common.rs`) are trusted, and their
  doc comments say what is trusted of each call. Strings are modelled as sequences of characters,
  keys as sequences of bytes, floating-point numbers as their bit patterns. What the machine gives
  (the screen, the store, the clock's zone) comes in as arguments, and what is to be done comes out
  as values.
  - `http/session.rs`, `connect.rs`: sessions over HTTP, and the bridge from standard input.
  - `m1.rs`, `m1/`: perception, that is observing, finding, capturing and reading text.
  - `m2/`: acting on the clipboard, keys, wheel and pointer.
  - `m3/`: the activity recorder, the timeline, intents, suggestions, armed routines and reflexes.
  - The other modules hold what these share: text, numerals, keys, JSON, orders, rectangles.
  Functions whose names begin with `law_` state what holds of several functions together.
- `tests/` runs the library on concrete values.
- `app/` is the program around it: transports, storage, serialisation, and calls into the desktop.
