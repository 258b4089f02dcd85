# questquest

The rules and state of a hexagonal, turn-based strategy game, written in
Verus with their behaviour stated as contracts and proved.

## Layout

- `src/` — the verified library.
  - `hexagon`, `simple_hex` — axial hex coordinates, their distance and
    neighbours; sprite kinds, textures and what each map layer draws.
  - `grid` — the hex map indexed by coordinate, with units, items,
    structures, highlights and text overlays.
  - `movement` — breadth-first shortest paths between hexes (which of the
    shortest paths the search returns is stated exactly) and the step state
    of a unit walking a path.
  - `search_order` — the order in which the search reaches the hexes of each
    ring around its start, in closed form.
  - `item_properties`, `item`, `item_definitions` — items and their bonuses.
  - `guide`, `encyclopedia`, `encyclopedia_builder` — encyclopedia entries
    and the text pages built from them.
  - `scene_manager`, `main_menu`, `game_scene` — the scene and game-state
    machines.
  - `display`, `panels` — state and texts of the in-game menu, the combat
    log and confirmation dialog, the encyclopedia page, the unit panel and
    the submenus.
  - `font` — the 5x7 bitmap font and its texture atlas.
  - `map_data`, `textures` — map file entries, their index, the pixel lookup
    grid, and where texture files are looked for.
  - `text` — decimal rendering of integers and line splitting and joining.
  - `ids` — unique identifiers (from the `uuid` crate).
- `tests/` — tests of the library.
- `app/` — a text front end: floating-point geometry, map files on disk
  (JSON through `serde_json`), screen layout and the input loop.
