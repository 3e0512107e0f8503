# fs-browser

The browser of the FreeSynergy desktop: tabs, navigation history, bookmarks,
search engines and address-bar handling. The library under `src/` is written
in Verus; every function carries a contract that Verus proves.

- `src/` — the verified library (`text`, `stamp`, `navigation`, `bookmark`,
  `model`, `controller`, `view`, `search_engine`, `config`, `app_model`,
  `bookmarks`, `history`, `app`, `panels`, `cli`, `rest`, `keys`).
- `tests/` — tests run against the compiled library.
- `app/` — the `fs-browser` program: command-line parsing, the REST daemon,
  the configuration file.

Configuration: `~/.config/fsn/browser.toml`.
