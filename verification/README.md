# arcade

Verified rules of a cartridge-style retro arcade: a console with a home
screen and a CRT shutdown, and five carts (SkiFree, Pong, Breakout, Snake and
a sketch pad).

- `src/` — the library, verified with Verus: the XorShift generator
  (`rng`), the home-screen text (`config`), the console's frame routing and
  menu navigation (`console`), the shared mode menu (`modes`), and the
  discrete rules of each cart (`snake`, `pong`, `breakout`, `skifree`,
  `etch`). Positions, velocities, timers and drawing are continuous and are
  not part of the library.
- `app/` — the cabinet program: the egui/eframe window and keyboard input,
  the `Game` trait the carts implement, the menu's visual effects, the CRT
  shutdown animation, and each cart's float physics and rendering on top of
  the library. `cabinet` runs the full console; `cabinet <cart>` runs one
  cart alone.
- `tests/` — tests of the library on concrete values.
