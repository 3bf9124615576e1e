# demo_service

A product catalogue served over HTTP. The library in `src/` holds the rules,
each with a contract proved by Verus:

- `domain`: products, their identifiers (UUIDs held by value), prices,
  timestamps, and the validation of creation and update requests.
- `application`: the use cases that decide what is created, updated or refused.
- `infrastructure`: reading and writing stored rows, the error answers, and
  the HTTP status of every answer, for both forms of the service.
- the crate root: the single-table form of the service, which keeps the stored
  timestamp texts as they are; a stored identifier that is no UUID is a store
  failure, answered 500.

`app/` runs it: the HTTP server (axum), the SQLite store (sqlx), the JSON
shapes (serde, utoipa), and the comparison of `f64` prices against the allowed
range.
