# suzu

The game logic of a book-lending shop simulation, as a library verified with
Verus, and a small program around it.

- `src/` — the verified library: the in-game calendar, books and their
  conditions, lending and returning requests, daily reports, advertising
  tables, the week plan, the scene stack, the shop's tile map and its route
  search, the customers' walk through the shop, shelving, and the ending's
  timings.  It also reads the game's TOML documents (parsed by the `toml`
  crate): the scenario table, the new-book schedule, the maps' event lists and
  the scenario scripts, with their text pages, choices, waits, built-in
  commands, switches and scene changes.
- `tests/` — tests of the library on concrete values.
- `app/` — the program: it reads the resource files from disk and hands their
  text to the library, reads the map editor's maps, keeps save slots and
  settings as JSON, holds the floating-point parts (reputation, volumes, text
  drawing styles, screen geometry and hit tests), and drives the library.
