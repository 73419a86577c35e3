# fileshare

A small file-sharing web service. The verified library (`src/`, checked by
Verus) holds its decisions; `app/` is the server around it (axum routes,
PostgreSQL through sqlx, leptos pages, the file store on disk).

- `number`: decimal `i64` parsing, with its specification.
- `misc`: expiry durations (`7d`, `12h`, ...) through chrono, random file
  hashes through rand, and the cleaner's decision for expired files.
- `digest`: MD5 of uploaded contents as lower-case hex text.
- `upload`: the upload of a multipart form as a state machine, with its
  transition relation and the laws it keeps.
- `handler`, `file`: answers of the health check, downloads and file pages.
