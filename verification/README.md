# Onyx

A terminal front end (and a small web interface) for downloading YouTube
videos, audio, playlists and thumbnails with yt-dlp.

The decisions of the program are a library verified with Verus; the
program around it runs yt-dlp, draws the screens and serves HTTP.

## Layout

- `src/` — the verified library.
  - `text` — text helpers: searching, trimming, decimal rendering.
  - `json`, `paths` — reading JSON fields and handling paths, through
    serde_json and `std::path`.
  - `formats` — formats of a video: grouping by height, sorting audio by
    bitrate, labels and sizes; quality presets and audio formats.
  - `download` — the arguments given to yt-dlp, reading its progress
    lines, file names, thumbnails.
  - `search`, `deps` — search arguments; where yt-dlp lives and when it
    must be fetched.
  - `widgets`, `menu`, `options`, `screens`, `settings`, `config` — the
    state of each screen and how keys change it.
  - `session` — the whole application: screens, keys, Enter, and the
    outcomes of the work that the program starts.
  - `web` — the web interface's sizes, format lists, request names and
    the table of downloads that the browser polls.
- `tests/` — tests of the library on concrete values.
- `app/` — the program: terminal, processes, files and the HTTP server.
