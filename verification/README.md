# know_now

The verified core of the know-now local server and its `serve` /
`session-url` commands, written in Verus.

- `src/` — the library, every function with a contract proved by Verus:
  - `urls`: launch paths and URLs, and retargeting a launch link onto
    another origin (`retarget_url`), with its laws.
  - `path`: `/`-separated paths — joining, components, parent steps and
    component-wise prefixes — with the law that a relative path joined onto a
    base stays under it.
  - `layout`: where a project keeps its launch info, metadata, documents and
    review state.
  - `launch_info`: the launch-info record.
  - `session`: which URL `session-url` hands out.
  - `serve`: loopback detection, the guard on write endpoints off loopback,
    browser auto-open, and what a started server announces and records.
  - `api`: the session gate, metadata-failure answers, the entity graph, the
    generation status, and which documents may be read.
  - `text`: character-level string helpers.
- `app/` — the HTTP server (axum, tokio), the command-line options (clap),
  JSON (serde) and file I/O around the library.
- `tests/` — tests of the library, including comparisons of the path model
  with `std::path` on Unix.
