# indieauth

A single-user IndieAuth authorization server with passkey (WebAuthn)
sign-in, verified with Verus.

- `src/` is the verified library: routing, every endpoint's decisions
  (`src/routes/`), CSRF and cookie handling, sessions, PKCE, client
  metadata validation, the SQLite operations and the HTML pages. Calls into
  outside crates (url, time, base64, sha2, subtle, rand, serde_json,
  rusqlite, webauthn-rs) sit behind small trusted wrappers whose contracts
  say what the crates' documentation promises. The database connection
  keeps, as ghost state, the writing statements handed to SQLite, the
  queries handed to it with the rows it answered, and the number of rows
  each write changed, each in order. Each endpoint's contract states
  which statements and queries it hands SQLite, and its answer in terms
  of what SQLite answered; a refused request writes nothing.
- `app/` is the server around it: the hyper/tokio listener, the database
  thread, reading request bodies, serde forms and session data, fetching a
  client's metadata document, and turning replies into HTTP responses.
- `tests/` runs the library on concrete requests, with an in-memory
  database.

Configuration comes from the environment: `BIND_ADDR` (`unix:/path` or a
TCP address), `DATABASE_PATH`, `RP_ID`, `RP_ORIGIN`, `ISSUER_URL`,
`OWNER_ME_URL`, optionally `OWNER_NAME`, `OWNER_PHOTO_URL`,
`BOOTSTRAP_SECRET`, and `STATIC_DIR`, the directory holding the browser
scripts served under `/auth/static/`.
