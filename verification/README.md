# yt_tui

A terminal YouTube player: `yt-dlp` searches, one long-lived `mpv` plays,
`ratatui` draws. The library under `src/` holds the program's decisions and
is verified with Verus; `app/` is the program around it.

- `src/app.rs` — the state machine: keys, selection, queue, history
  updates, and what a refresh from mpv changes; with the laws it keeps.
- `src/history.rs` — the watch history (most recent first, one entry per
  id, capped) and its laws.
- `src/yt.rs` — videos, their URL and duration text, the yt-dlp search.
- `src/mpv.rs` — mpv's arguments, socket, start-up wait, commands, replies.
- `src/ui.rs` — every text the screen shows.
- `src/text.rs` — trimming and zero-padded decimals.
- `src/json.rs` — the `serde_json` calls the library makes.
- `app/` — terminal, event loop, processes, sockets, files, drawing.
