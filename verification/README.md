# locator_admin_rust

The back end of the locator administration UI: it keeps the day's locate requests and
locates, routes quote responses into them, keeps the server-sent-event clients in groups,
caches the providers' settings, and forwards the UI's requests to the locator, reporting,
internal-inventory and order-book services.

## Layout

- `src/` — the library, verified with Verus.
  - `timestamp.rs` — instants with their UTC offsets; midnight and ISO 8601 text through the
    `time` crate.
  - `text.rs` — joining, removing repeated entries, decimal numerals.
  - `models/` — the records received, kept and sent (prices held by their IEEE-754 bit
    patterns).
  - `services/` — the caches of locate requests and locates, filing of quote responses,
    the restore cursor, the client groups of the event hub, the provider settings cache,
    the cleanup clock.
  - `routes/` — what each HTTP endpoint asks of which service, and the errors it answers.
  - `external_services_client.rs`, `kafka.rs`, `startup.rs`, `constants/`.
- `tests/` — tests of the library on concrete values.
- `app/` — the executable: configuration, HTTP server, HTTP client, Kafka consumers,
  server-sent events, JSON spellings of the records, and the floating-point price
  arithmetic.
