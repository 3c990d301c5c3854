# github_status

A terminal dashboard and command-line tool that watches the GitHub Actions
status of a set of repositories.

## Layout

- `src/` — the verified library (Verus). Every function there carries a
  contract, and the properties that span several functions are stated and
  proved as public proof functions (their names start with `law_`).
  - `domain/` — projects, workflow runs, run states, polling tiers.
  - `app/` — the dashboard state machine: actions, filters, toasts, the
    reducer `AppState::update_at` and the proved guarantees about it.
  - `config.rs`, `cli.rs`, `commands.rs` — configuration model, command
    selection and the text the commands print.
  - `adapters/` — clock, platform directories, local clone discovery,
    GitHub response mapping and the on-disk cache records.
  - `tui/` — key mapping, theme, and the text/spans each widget draws.
  - `text.rs` — string helpers with specifications.
- `app/` — the program around the library: argument parsing, file and network
  I/O, the async runtime, terminal drawing and the event loop.
- `tests/` — tests run against the compiled library.
