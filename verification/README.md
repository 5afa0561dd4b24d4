# yttui

A keyboard-driven YouTube client for the terminal: it searches with `yt-dlp` and plays with `mpv`.

The crate is a library whose functions carry their contracts and are proved against them with Verus,
and a thin program around it that does the input and output.

## Layout

| Where | What |
|---|---|
| `src/app.rs`, `src/keys.rs` | the state of the screen and what each key does to it |
| `src/session.rs`, `src/dispatcher.rs` | the main loop: searches in flight, effects to carry out |
| `src/search.rs`, `src/search_run.rs`, `src/json.rs`, `src/double.rs` | asking `yt-dlp` and reading its answer |
| `src/player.rs`, `src/playback.rs`, `src/signal.rs`, `src/process.rs` | starting `mpv`, and ending it and the searches with the program |
| `src/tui.rs`, `src/scene.rs`, `src/width.rs`, `src/palette.rs` | what the screen shows, as widgets to paint |
| `src/config.rs`, `src/document.rs`, `src/logging.rs` | the configuration file and the log file |
| `src/cli.rs`, `src/preflight.rs` | the command line, and the programs that are needed |
| `src/text.rs`, `src/time.rs` | texts and lengths of time |
| `src/*_laws.rs` | what holds of the library as a whole |
| `app/` | the program: terminal, processes, threads, files |
| `tests/` | the library's tests |

## Reading the contracts

Every type that holds text or lists has a view, and the contracts speak of views. `App::handle_key`
says that the state after a key is `after_key` of the state before it; `tui::draw` says that the
widgets are `screen_of` that state. The laws are proved of those functions: a filter shows exactly
what matches, a search that was given up cannot change the screen, no text on the selected row has
the color of the selection.

What other crates compute is stated where they are called, in items marked `external_body` or
`assume_specification`: how `toml` reads a document, what a value of `serde_json` or `toml` holds, how
wide `unicode-width` takes a text to be, how `ratatui` divides an area. Two things need a type that
`serde` derives its reading for, and come from the program as functions: the list of entries in the
output of `yt-dlp`, and the words in which `toml` says what is wrong with a configuration file.
