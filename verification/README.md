# dates_backend

The backend of a small game in which users grow palm trees that yield dates.
Users register, sign in with a session token (an HS256 JSON web token),
read and update their coins and dates, and plant trees.

Layout:

- `src/` — the verified library (Verus):
  - `utilities/jwt.rs`: the session token: claims framing as JSON, URL-safe
    base64, and the HMAC-SHA256 signature through `jsonwebtoken`. A token's
    issue time is a number handed in by the caller.
  - `utilities/errors.rs`: error answers and database errors.
  - `models/`: the rows the handlers read.
  - `routes/users.rs`: request and response bodies, and the entry points of
    the users API.
  - `routes/flow.rs`: the handlers that wait on the database, as state
    machines: a state and an outcome give the next state and the next piece
    of work (or the answer).
  - `routes/*.rs`: the small echo endpoints.
  - `laws.rs`, `token_laws.rs`: properties of the handlers and of the tokens
    that hold across calls.
- `app/` — the server: configuration, axum routing and middleware, the
  sea-orm entities and migration, bcrypt hashing, the clock (read through
  `chrono` and handed to the library with the outcome of a password check and
  with a registration), and the loop that performs the work the state
  machines ask for.
- `tests/` — tests of the library.

Two crates serve the server only:

- `bcrypt` hashes the passwords that accounts are stored with and checks
  sign-in passwords against those hashes, at bcrypt's default cost.
- `serde_json` writes error answers as `{"error": "<message>"}` with the
  answer's status code; the tests also use it to decode tokens.

The server routes the users API (`/api/users`, `/api/users/login`,
`/api/users/update`, `/api/users/logout`, `/api/tree/new`); it has no handler
for `/` or `/api/users/update_overtime`. It does not log database errors.
