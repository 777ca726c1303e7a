# last_commit

The rules of *The Last Commit*, a small survival game set in an abandoned
office, written in Verus with their contracts proved.

- `src/components.rs` — the player, bugs, items and people, as the rules see them.
- `src/systems.rs` — bug contact, picking items up, talking, the movement keys,
  and what the first floor holds.
- `src/hud.rs` — the labels of the heads-up display and the pick-up messages.
- `src/states.rs` — the screens (splash, menu, game, pause, game over) and how events
  move between them, with the laws of that order.
- `src/text.rs` — decimal rendering of integers.
- `tests/` — runs the rules on concrete values.
- `app/` — the Bevy program around the library: windows, meshes, input, audio,
  and all movement arithmetic, which is done in floating point.
