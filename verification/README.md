# snooker_aim

A snooker aim trainer (raylib, two balls, straight-line aiming aids) split
into a verified library and the program around it.

- `src/` — the library, verified with Verus:
  - `puzzle.rs`: puzzle sets, exercises and cell ranges; validating a set
    against its index entry and the grid; sampling a placement with a
    bounded number of rerolls.
  - `touch_ui.rs`: layout of the on-screen controls and the pause menu,
    exact hit tests, and the proof that the controls never overlap on a
    screen large enough for them.
  - `game_state.rs`: the session state machine (view mode, frozen aim,
    camera presets, reset, help, pause menu) with its laws.
  - `shot.rs`: the reroll loop for a realistic layout, the choice of target
    pocket and of the pocket a shot falls into.
  - `table.rs`: which piece of a piecewise-linear cushion boundary applies.
- `app/` — the program: raylib window, input, drawing, asset and puzzle
  file loading, and all floating-point geometry. Measured values reach the
  library as order keys (`app/keys.rs`).
- `tests/` — tests of the library on concrete values.
