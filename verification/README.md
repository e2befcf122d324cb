# gem

A terminal browser for the gemini protocol, written as a verified library
with a thin program around it.

The library (`src/`) holds the logic, each function with a contract that
Verus proves:

- `gemstatus`, `status`, `gemini`, `gemini::gemtext`: response headers and
  status codes, the lines of gemtext documents, links and their targets.
- `scr`, `screen`, `bnd`, `common`, `util`: screen geometry, cursors that
  scroll a window over data, ranges, text wrapping.
- `ui`, `widget`, `view`, `model`, `msg`, `event`, `config`, `display`,
  `bar`, `content`, `table`: the interface's state and how events and keys
  change it.
- `tab`, `tabs`: the tab server (which tab is shown, opening and closing
  tabs, the banner), what a tab does with a key or with a dialog's
  answer, and the stack of dialogs open on a tab; `dialog`: the answers a
  dialog gives, and how a dialog that offers a choice of keys answers a
  key.
- `weburl`: URLs, parsed and joined by the `url` crate.

The program (`app/`) reads the terminal's events with `crossterm`, fetches
pages over TLS with `native-tls`, reads settings with `toml`, and draws.
