# spotui

A terminal Spotify player. The library (`src/`) holds its state and rules, proved with
Verus: the progress clock and its text, the tickers that pace refreshes, what is playing,
the album cover as coloured cells, keyboard navigation through playlists and tracks, the
screen layout (tui's solver cuts the bands; what it guarantees of them is stated, and on
screens of eight rows or more their exact sizes), and the addresses and requests sent to
Spotify. `app/` runs the player: the sign-in server, the HTTP calls, the terminal and the
keyboard.

- `src/util`: clock text (`seconds_to_time_string`) and elapsed-time readings.
- `src/state`: tickers, progress, now playing, cover, and the adaptor joining them.
- `src/ui`: key navigation, layout, cover drawing.
- `src/services`: sign-in address, API paths, play requests, the first two-pane layout.
- `src/events`, `src/types`: events, keys and the data the player reads.
