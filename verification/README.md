# rozvp

The rules of RoZVP, a lawn-defense game, as a library verified with Verus:
levels and their wave budgets, the wave director, zombies and plants,
sun and the seed bank, combat, the advice line, the menus and buttons of
both builds, saved progress, translations and cue sounds. Game time runs in
integer 100 Hz ticks; everything that is measured on screen in floating
point (positions, speeds, volumes, synthesized samples) is measured by the
caller and handed to the rules as plain values.

Layout:

- `src/` — the verified library. Each module states its rules as `spec`
  functions and proves its executable functions against them; the laws
  that tie several functions together are public proof functions.
- `tests/` — tests of the library on concrete values.
- `app/` — a headless runner: it loads the save and runs the saved level
  on the library for a number of ticks, with a fixed strategy planting
  from the seed bank in place of a player (sun is picked up once a
  second), then reports and saves. Floating-point motion, file I/O and
  the synthesized samples live here; translation catalogs are read from a
  directory at start (the game's own catalogs are not included).

Outside crates: `rand` (wave lanes and kinds, Garlic lane changes),
`fluent-bundle` and `unic-langid` (translation catalogs) are called from the
library through small trusted wrappers; `serde`, `ron`, `directories` and
`anyhow` serve the runner.
