# tij

The verified core of a terminal interface for the Jujutsu (jj) version
control system. The library decides what the interface does: where a key
press goes, which views to reload, what a closed dialog runs, what a push,
rebase or fetch reports, how the preview pane is laid out, and how the
preview cache evicts. Every function carries a contract that Verus proves.

Layout:

- `src/` — the library, one module per concern (`nav`, `keymap`, `state`,
  `dialog`, `push`, `push_run`, `rebase`, `preview`, `ops`, `bookmark`,
  `fetch`, `diff_format`, `opening`, `resolve`, `log_edit`, `trace_view`,
  `revision`, `actions`, `time`, and the string helpers in `text`). Public
  proof functions named `law_*` state properties that span several calls.
- `tests/` — tests of the library on concrete values.
- `app/` — the terminal program around the library: running `jj`, the
  clipboard, drawing with ratatui, reading keys with crossterm, and the
  loops of the push, fetch and rebase flows and of the open dialog, whose
  every step the library decides (`P` push, `f` fetch, `R` rebase in the
  log view).

Verify with Verus from this directory; the library has no outside
dependency, the program depends on `crossterm`, `ratatui` and `scopeguard`.
