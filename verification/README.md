# rfserve

A small HTTP service that hands out time-limited download links for stored
videos. `POST /rfserve/create/{id}` registers a link for a history record;
`GET /rfserve/download/{fileid}` serves the file behind a link while it is
valid.

Layout:

- `src/` is the verified library (Verus). It holds the settings, the
  registration rules (`register`), the download decisions as a state machine
  (`download`), link identifiers and their textual forms (`link_id`),
  timestamps (`time`), text helpers (`text`), the answers of the endpoints
  (`dto`) and the properties proved across them (`laws`). Calls into `chrono`
  and `uuid` stand behind a few trusted wrappers, each documented where it is
  declared.
- `app/` is the program around it: reading the environment, the PostgreSQL
  stores (sqlx), the axum routes, and the loops that carry out what the
  library decides.
- `tests/` exercises the library on concrete values.
