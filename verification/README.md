# mbr

A command line client and terminal UI for Metabase, with its logic proved
correct by Verus.

- `src/` is the verified library: the content panel's state machine (lists,
  drill-down, query results with paging, sort, filter, search and row
  selection), the application's reaction to keys and fetched data, what each
  screen shows, the command plans of the CLI, table rendering, memory
  estimates and chunking, text wrapping and truncation, and the copy formats.
  Every public function states what it returns or changes; `src/laws.rs`
  holds properties that relate several operations.
- `app/` is the program around it: argument parsing, HTTP requests, the
  configuration and session files, the terminal event loop and drawing. It
  hands the library plain values and performs the effects the library asks
  for.
- `tests/` runs the library on concrete values.
