# qobine (verified core)

The decisions and text layout of a terminal player and Qobuz Connect
renderer, written in Verus with their contracts proved.

- `src/` — the verified library:
  - `app`: screens, the stack of detail pages, help/focus/device modes and
    what keys and page answers lead to; the caller performs the returned
    effects.
  - `connect`: the Connect renderer session (queue events, renderer
    commands, queue publication, state reports); `transport`: its
    WebSocket settings; `protocol`: queue versions.
  - `overlays`, `screens`, `tabs`, `keys`: navigation in album and artist
    pages, search, discover and genres.
  - `focus`, `about`, `display`, `text`: big-text fitting, wrapped about
    texts, header blurbs, breadcrumbs, durations, widths and layouts.
  - `downloader`: the audio cache directory (raw path bytes), file names
    of tracks, and the steps of fetching a track for playback.
  - `notifications`, `favorites`, `models`: shared data.
- `tests/` — tests run against the compiled library.
- `app/` — the unverified edge: terminal events, JSON messages, floating
  point volume and progress, path conversions, and styling.
