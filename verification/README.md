# shmtu_monitor

A service monitor for OCR service instances grouped into server groups. It
exposes an HTTP API over a SQLite database and polls every registered
instance's `/api/status` and `/api/health` endpoints in the background.

- `src/` is the verified library (Verus): the answers of every API endpoint
  given what the database returned (including the flat-service endpoints
  of the first schema, which the program does not route), dashboard
  aggregation, the poller's
  schedule and the merge of the two endpoint replies, configuration parsing,
  the history query text and the migration decision.
- `app/` is the program around it: the axum routes and handlers, the sqlx
  queries, the reqwest calls, the tokio poll loop and the floating-point
  statistics.
- `tests/` exercises the library on concrete values.
