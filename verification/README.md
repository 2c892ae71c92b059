# rusty_mario

A side-scrolling platformer built on Bevy, with its game rules in a verified
library.

- `src/` is the rules library, verified with Verus: reading a level from its
  colour-coded map image (`level`), score, lives and screen changes (`ui`,
  `items`, `enemies`), enemy, pipe-dweller and player decisions (`enemies`,
  `player`), on-screen buttons (`touch_controls`) and the text of the display.
- `app/` is the Bevy game: rendering, audio, input, and the real-time physics
  in floating point, which call into the library for every decision.
- `tests/` run the library on concrete values, including map images encoded
  as PNG.

Map images are read from `assets/levels/lvl1.png` to `lvl4.png`; sprites,
sounds and fonts from `assets/`.
