# pyload_tui

A terminal client for the pyLoad download server, written in Verus.

`src/` is the verified library: the packages, files and downloads screens and
what their keys ask for, the two forms, the navigation between screens, the
reaction to the server's events, the cells of the tables and the status bar,
the number formatting of sizes and speeds, and the reading of the
configuration file. `src/laws.rs` states properties that span operations.

`app/` is the program around it: the terminal loop, drawing with ratatui,
the requests to the server, and the configuration file on disk.

`tests/` holds the tests of the library.

## Keys worth knowing

- `X` stops everything in two presses: the first pauses the queue and aborts
  the running downloads, leaving the aborted files as they are; the second
  (with the queue paused) restarts the failed and aborted files and unpauses.
- `Esc` in either form goes back to the screen the form was opened from.
- On the packages screen, `r` restarts the selected package, `m` moves it to
  the other destination, and `J`/`K` move it down or up within its
  destination.
