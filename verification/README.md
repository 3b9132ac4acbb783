# player

The core of a music player, verified with Verus.

- `src/` — the library. `Player` takes commands and clock ticks; `Player::step` carries out
  what follows from them one thing at a time, calling an `AudioBackend` or returning a report,
  and `Player::settle` does so until nothing is left, telling a `Listener` of the reports.
  `model.rs` is the player as a mathematical state machine, `transcript.rs` says what is seen
  of a whole command or tick, and `laws.rs` what always holds.
- `tests/` — tests of the library.
- `app/` — the player thread: channels, the clock and the callbacks.

Volumes cross the border of the library as the bit patterns of single-precision numbers.
