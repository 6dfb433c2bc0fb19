# laba

Two small bevy scenes of tori whose colour comes from a palette.

- `src/` is the verified library: the palette (`palette.rs`), the keyboard
  commands (`keys.rs`), the repeating one-second timer of the automatic mode
  (`timer.rs`, which calls bevy's `Timer`), and the laws proved of them
  (`laws.rs`).
- `app/` is the bevy program: scene setup, rendering, floating-point motion
  and the systems that feed key presses and frame times to the library.
  Run with the argument `laba1` for the single spinning torus; the default is
  the scene of four orbiting tori.
- `tests/` exercises the library, with bevy's timer linked in.
