# alien_com

The rules of a hex-map planetary colonisation strategy game, verified with
Verus: hex geometry, factions and diplomacy, territory, the economy, cities,
and the keyboard and menu state machines of every screen, including the
debug console and its command language.

## Layout

- `src/` — the verified library. Each module states its behaviour as
  `requires` / `ensures` contracts over spec functions, and the laws that
  span several operations as public proof functions (`lemma_*`).
  - `hex`, `terrain`, `map_settings`, `coord_map`, `map_grid`: the map.
  - `map_plan`, `landing`: laying out a new map from per-cell decisions,
    with the coast rule for mountains, and choosing each faction's landing
    cell.
  - `faction`, `territory`, `resources`, `city`, `diplomacy`: the game state.
  - `keys`, `input`, `hud`, `title`, `pause`, `settings`, `settings_nav`,
    `faction_select`, `app_state`: screens and their keyboard handling.
  - `info_panel`: the lines of the tile information panel.
  - `console`, `console_text`, `command`, `console_input`, `text`: the debug
    console, its text handling and its commands.
- `tests/` — tests of the library on concrete values.
- `app/` — the program around the library: bevy resources and systems that
  feed the frame's keys to the library and carry out what it returns, plus
  the floating-point geometry, colours, camera motion and the
  elevation and climate decisions of each map cell (`plan_cell`).

## Trusted code

Two functions of `src/` are trusted rather than proved, each a thin
wrapper of one standard-library function: `String::push` and
`str::to_lowercase`, whose result is named `lowercase`.
