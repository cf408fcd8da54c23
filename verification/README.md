# otcg

Engine of an open tactical card game, verified with Verus, and the lobby
server around it.

- `src/` — the engine, its functions with contracts proved by Verus:
  seats and visibility (`player`, `visibility`, `viewable`), pointers into
  piles and boards (`pointer`), cards, chips and boards (`card`, `chip`,
  `board`), piles (`pile`), the rules of each game (`rules`), the library of
  cards and chips and the format of its files (`library`, `library_file`,
  `names`), what players bring (`background`), player areas and
  battlefields (`area`), the game itself (`game`), what each seat sees
  (`view`), the decisions taken on each message of a player (`server`) and
  the lobbies and the queue (`lobby`).
- Three calls into outside crates are trusted rather than proved, each
  behind a small wrapper whose contract says what is assumed: shuffling with
  `rand` (`shuffle`), and reading a library file's text with `serde_json` or
  `toml` (`library_file`).
- `tests/` — tests of the engine on concrete games and files.
- `app/` — the lobby server: websockets, JSON messages, reading library
  files from disk, and the asynchronous plumbing around the engine.

Run with `PLAYERS`, `GAME`, `LIBRARY` and `ADDRESS` set as needed.
