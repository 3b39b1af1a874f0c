# rust_ci

A lightweight self-hosted CI server (webhook-triggered shell builds, build and
runtime log viewers, bilingual UI, user accounts), split in two:

- `src/` — the library, verified with Verus: the message catalog (`i18n`),
  the backward chunked scan that finds the last lines of a log
  (`handlers::tail`), incremental log polls, the log-file listing and its
  name guard (`handlers::project_logs`), login and password hashing through
  Argon2 (`handlers::auth`), webhook keys and the build-run state machine
  (`handlers::projects`, `handlers::webhook`), the page data (`templates`,
  `models`) and the database seeding decisions (`db`).
- `app/` — the axum server around it: routing, sessions, SQLite queries,
  file and process I/O. It performs the reads, writes and spawns the library
  asks for and renders the library's page data.
- `tests/` — runtime tests of the library.
