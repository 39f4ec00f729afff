# unhaunter

The game logic of *Unhaunter*, a cooperative ghost-hunting game, written in
Verus: every function of the library states what it does in `requires` /
`ensures` clauses, and the verifier proves the code against them.

## Layout

- `src/` — the verified library.
  - `ghost_definitions` — evidence kinds, ghost types and the five pieces of
    evidence each ghost leaves (with the uniqueness and balance of those sets
    proved).
  - `difficulty` — the sixteen difficulty presets; fractional settings are
    held in thousandths.
  - `behavior` — what a map sprite is (class, orientation, state read from
    the map's text attributes), the properties it gives its tile and the
    components the tile carries.
  - `board` — tiles of the grid, their neighbourhoods and the light-field
    blocks.
  - `gear` — each piece of gear, the player's hands and inventory, crafting
    repellent, deploying and retrieving gear.
  - `mainmenu`, `maphub`, `manual`, `pause`, `summary`, `game` — what the
    keys and events of each screen change.
  - `player` — animation frames and what interacting with objects does.
  - `text` — reading and writing names through JSON strings, decimals.
- `tests/` — tests run against the compiled library.
- `app/` — the program: finds the maps on disk, reads Tiled data, and the
  floating-point parts of the game.
