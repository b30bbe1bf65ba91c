# sigrok_rs

A binding to libsigrok, the signal-analysis library of the sigrok project,
whose logic is verified with Verus.

- `src/` is the verified library: libsigrok's status codes and enumerations,
  configuration options and the reading of their values from text, the
  bookkeeping of devices (channels, channel groups, options and how an option
  identifier is looked up), the selection of devices, the decoding and
  rendering of logic packets, and the text of versions and device
  descriptions. Every public function carries a contract; `proof fn`s state
  the laws that tie functions together (code round trips, setting an option
  then reading it back, enabling or renaming a channel then finding it).
- `app/` is the program around it: every call into libsigrok and glib (the
  C libraries are reached through `libsigrok-sys` and `glib`), the session
  and its data-feed callback, triggers, and the parts that read or write
  floating-point numbers.
- `tests/` runs the library on concrete values.
