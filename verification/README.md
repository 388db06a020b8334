# quotail

A keyboard-first terminal dashboard for stocks, crypto and indices, with an MCP
server through which an assistant reads market data and drives the running UI.

The crate is split in two:

- `src/` is the verified core, written in Verus. It holds the timeframe rules
  (native intervals, the smallest fetch range that covers the moving-average
  warmup, cache lifetimes, label parsing), the configuration and its settings
  screen, the in-place rewrite of `config.toml` that keeps the user's comments
  (through `toml_edit`), watchlist filtering, categorisation and sorting by symbol, chart windowing by timestamp
  and bucketing into columns, the cell composition of a candle column, every
  screen's geometry and laid-out text, the navigation rules (slot fill policy,
  cursor scrolling, going back), the palettes, and the decisions of the data
  store, the Yahoo adapter, the MCP tools and the session socket. Each public
  function carries a contract over a mathematical model, and the laws that
  relate functions are stated as proof functions.
- `app/` is the program around it: the ratatui renderers, the float-valued
  market data and indicators, the HTTP provider and caching store, reading and
  writing the config and session files, the Unix session socket and the MCP server over stdio.

`tests/` exercises the core on concrete values.
