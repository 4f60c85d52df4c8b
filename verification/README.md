# api

The decision logic of a small chat server, verified with Verus.

- `src/` — the library: socket routing (`socket`), the broker's roster and
  its decisions (`broker`), the data types (`channel`, `message`, `User`) and
  the reading of single-row lookups (`db`). Contracts and laws are stated over
  views of these types and proved.
- `app/` — the server around it: HTTP endpoints (tide), the websocket
  endpoint, the Redis pub/sub loop and the Postgres queries (sqlx), and the
  serde/sqlx copies of the library's types.
- `tests/` — tests of the library on concrete values.
