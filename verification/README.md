# deployanyfile

A small file-sharing service: users upload files and share them through
short links. The library (`src/`) holds the service's rules, verified with
Verus; `app/` is the HTTP server around it (axum, SQLite through sqlx).

- `text` — trimming, prefix/suffix tests, decimal numbers, string building.
- `util` — random and custom links, file categories, MIME resolution,
  stored file names.
- `auth` — password hashing (bcrypt), login tokens (JWT claims and signing),
  who a request comes from.
- `config` — settings from the environment.
- `db` — the database file of a `sqlite:` URL.
- `handlers` — the decisions of each route: account names and passwords,
  uploads, file lists and their SQL, ownership, bulk changes, public pages,
  downloads, client addresses, percent-encoding.

Run the tests with the crate's test harness; the server reads its settings
from `BIND_ADDR`, `DATA_DIR`, `DATABASE_URL`, `UPLOAD_DIR`, `JWT_SECRET`,
`ADMIN_USERNAME`, `ADMIN_PASSWORD`, `MAX_UPLOAD_MB` and `STATIC_DIR`.

Personal API tokens (`daf_…`) are recognised by the upload route, but the
server has no function to hash them for lookup, so every such token is
refused; uploads need a login token. Database migrations are read at start
from `./migrations`.
