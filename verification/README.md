# namimado

The model of a desktop web browser, written in Verus: tabs and their
navigation history, bookmarks, browsing history, downloads, the toolbar,
sidebar and status bar, keyboard shortcuts (with an optional vim layer), the
configuration, the IPC messages of the webview, and the application state
that ties them together. Every function of the library carries a contract
that Verus proves.

## Layout

- `src/` — the verified library.
  - `browser/` — tabs (`tab`, `tabs`), address normalisation and tab
    navigation (`navigation`), `history`, `bookmark`, `download` and the byte
    counts it shows (`bytes_format`).
  - `chrome/` — `toolbar`, `sidebar`, `statusbar`.
  - `input/keybindings` — key events to browser actions.
  - `coordinator` — the application state: what every browser action and
    every webview message does to it, and which page the web engine is to
    load.
  - `config`, `ipc`, `scripting` (script hooks), `render` (tab bar entries,
    page text, and the text of a substrate report as the headless `navigate`
    command and the inspector show it), `typescape` (the self-describing manifest and its hash),
    `api` (wire records).
  - `location`, `text`, `clock`, `seqs` — URLs as the `url` crate parses
    them, string helpers, the clock, and sequence facts.
- `tests/` — the tests, run against the compiled library.
- `app/` — the program: command line (with the headless `navigate`
  command), configuration file, window and event
  loop (winit), script engine (soushi), key table (awase), the floating-point
  layout of the chrome, and the JSON shapes of library types.

The laws of the library (what navigating back and forward undoes, what
closing and restoring a tab gives back, that the browser never runs out of
tabs, how suggestions are ordered, ...) are public proof functions next to
the code they are about.
