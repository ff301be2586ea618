# snake-wasm

A Snake game on a 20 x 20 board. `src/` is the game's logic, verified with
Verus; `app/` is the Macroquad window around it: the frame loop, reading the
keys and mouse, and drawing.

- `src/grid.rs`: cells of the board, free cells, and the counting lemma that a
  snake shorter than the board leaves room for an apple.
- `src/game.rs`: a round (`Game`), its mathematical view (`GameView`) and the
  transitions `updated`, `turned`, `toggled`, which the methods are proved to
  follow exactly. Time is counted in whole microseconds.
- `src/ui.rs`: the buttons' hit areas, what a click asks for, and the words
  shown per phase.
- `src/input.rs`: what one frame's keys and click do to a round.
- `src/laws.rs`: properties of every round: the invariant kept by every
  operation, one turn per move, no reversal onto the neck, pause and resume,
  the best score never dropping, and others.

The program builds for `wasm32-unknown-unknown` with Macroquad 0.4; text is
drawn in Macroquad's default font.
