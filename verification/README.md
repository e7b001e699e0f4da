# peri-tui

The logic behind the terminal UI's panels and popups, verified with Verus:
text fields and cursors, list navigation, line wrapping and render heights,
the question popup's state machine, the settings and model panels, the
provider editor, the setup wizard, the plugin search and marketplace lists,
the service snapshot's scheduling and derived lists, and the small status
rules of the status bar.

Layout:

- `src/` — the verified library (one module per concern; `lib.rs` lists them).
  Calls into `std` and outside crates (`unicode-width`, `chrono`) go through
  small trusted wrappers whose contracts say what those functions return.
- `tests/` — tests run against the compiled library.
- `app/` — host-side glue that the library leaves to its caller: the file
  system, the environment, child processes, floating-point formatting and
  JSON.
