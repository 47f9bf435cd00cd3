# FLOPPY SPIN core, verified

The deterministic integer core of a spinning-top battle game, written in
Verus: every function in `src/` carries a contract that Verus proves, but
one, and the `law_*` proof functions state properties that span several
calls. The exception is the trusted wrapper `ascii_str` in `src/pe.rs`,
whose contract (ASCII bytes convert to a string of the same characters) is
taken on trust from the documentation of `std::str::from_utf8`.

- `src/` — the verified library: value types and their validation
  (`domain`), FNV-1a hashing (`hash`), the `xorshift64*` generator (`rng`),
  input packing (`input`), the roster and garage builds (`roster`,
  `garage`), combat scoring and special rules (`combat`, `physics`), the
  screen-flow state machine and the session around it (`flow`, `session`),
  the launch minigame's stages (`minigame`), the AI's integer pieces (`ai`),
  music scheduling, envelope stages and voice allocation (`audio`), the save
  format (`save`), and the byte formats PNG, WAV and PE import tables
  (`png`, `wav`, `pe`), plus golden-frame difference totals and the
  tolerance rule over them (`golden`).
- `tests/` — ordinary Rust tests against the library.
- `app/` — the host side, ordinary Rust that Verus does not see: everything
  that computes in floating point (the 3D fight world, arena, vectors and
  deterministic trig, the AI controller, the minigame's meter, sound
  synthesis and effects, the golden report's float means) and file I/O
  (atomic save writes). Its `game` module drives the library's session
  frame by frame.
