# ofimatia

A desktop office assistant that manages a Google Calendar from instructions in
natural language. The logic is a Verus-verified library; a thin application
around it does the I/O.

## Layout

- `src/` — the verified library.
  - `text.rs`: string operations (trim, split, search, replace, decimal) with
    their specifications.
  - `dates.rs`: dates and date-times as plain values, chrono-compatible
    rendering, and the trusted calls into `chrono`.
  - `tokens.rs`: when a stored OAuth token may be used.
  - `oauth.rs`: credentials check, the OAuth callback request and pages,
    token expiry.
  - `calendar.rs`: Google Calendar addresses, request bodies, error messages,
    how answers become events, the listing window, dates in instructions.
  - `prompts.rs`, `assistant.rs`: the prompts sent to Groq, cleaning its
    answer, recovering a missing title, checking edits and deletions.
  - `planner.rs`: the decisions behind an instruction: context events, the
    action, the event an edit is about, and the create/update requests.
  - `condenser.rs`: summaries, tags and titles of conversations.
- `tests/` — tests of the library on concrete values.
- `app/` — the Tauri application: SQLite store, HTTP calls to Google and
  Groq, the OAuth callback server, serde copies of the library's types.
