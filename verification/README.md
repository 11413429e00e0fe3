# dink

Summaries of the notifications that the Dink plugin for Old School RuneScape
sends, and the request handling of a small HTTP server that receives them.

- `src/` is the verified library (Verus):
  - `notification` — notification kinds, notifications and their one-line
    summary, specified by `summary`;
  - `fields` — the extra fields of a notification, a map of names to texts;
  - `text` — splitting, trimming, joining and decimal rendering, specified
    over `Seq<char>`;
  - `server` — router options, the reading of a multipart upload and the
    decision on it (status, answer, log lines);
  - `logging` — the loggers and the lines they write;
  - `api` — the port and route settings of the API server.
- `app/` is the program around it: the axum router, the handlers, the logger
  trait and its impls, and `main`.
- `tests/` runs the library on concrete values.
