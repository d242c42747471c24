# telesms_bot

A personal gateway between SMS and Telegram. A modem on the host receives and
sends the messages; a forum group shows them, with one General topic and one
topic for each contact. Contacts come from Google, and the same actions can be
called over HTTP.

## Layout

- `src/` is the library. Every item of it is verified with Verus.
  - `tables.rs` models the stored tables as mathematical values; `db/` is the
    executable store over them, and `db/laws.rs` and `db/paging.rs` state what
    the store keeps for its callers.
  - `route.rs` decides where a message belongs, `app/` holds the flows that
    receive, send and sweep messages, `actions/` what the owner can ask for, and
    `telegram/` and `http.rs` the two ways to ask.
  - `modem.rs`, `modem_mm.rs`, `call_forward.rs`, `google.rs`, `status.rs` and
    `config.rs` hold the rules of the modem, of call forwarding, of the address
    book, of the status card and of the settings.
  - `clock.rs`, `normalize.rs`, `google.rs` and `http.rs` call `chrono`,
    `chrono_tz`, `phonenumber`, `oauth2` and `subtle` through small wrappers whose
    contracts say what is taken on trust.
- `app/` is ordinary Rust: it keeps the tables in SQLite, talks to ModemManager,
  Telegram and Google, serves the HTTP API, and carries out what the flows of the
  library ask for.
- `tests/` runs the library from outside.

## Flows

A flow of the library never waits. It hands out one `Effect` at a time, such as a
post to Telegram or a message to be sent, together with what to go on with; the
caller carries the effect out and hands the `Outcome` back. Each step states the
next effect and what it changes in the tables, so that what holds of a whole flow
can be proved of its steps.
