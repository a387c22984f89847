# xt_keyboard_tester

A terminal tester for a MacBook-to-IBM-PC/XT keyboard mapper. It shows two
keyboards side by side: the physical MacBook keys as the terminal reports
them, and the virtual 83-key XT keys that the mapper drives.

- `src/` is the verified library: the adapter from terminal key events to
  the mapper's host events, per-key state tracking, simulated releases for
  terminals that never report one, the description of the last event, and
  the full screen layout as positioned, styled cells. Every function carries
  a contract proved by Verus; the laws of key tracking, release timing and
  layout are proof functions beside the code they speak of. Two of the
  calls into `crossterm` that compute rather than do I/O, its renderings of
  the modifier flags and of the keyboard state, are made in
  `src/describe.rs` behind wrappers whose contracts say what those
  renderings are. Its rendering of the key code is still made in `app/`.
- `app/` is the terminal front end: raw mode and the kitty keyboard
  protocol through `crossterm`, the event loop, rendering of the cells, and
  the calls into the `pc_xt_keyboard` mapper library, which it needs to
  build.
- `tests/` exercises the library on concrete values.
