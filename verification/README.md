# web_demo

A web service for user accounts (sign-up with text-message codes, password
and token sign-in, outside sign-in through GitHub, user management), written
as a verified library and a thin server around it.

- `src/` — the library, verified with Verus: input rules, access rules,
  token issue and checks, password hashing, verification codes, pagination,
  answer envelopes, error answers, configuration addresses, soft deletion,
  the transaction decisions, and what each endpoint decides between its
  reads and writes. Calls into outside crates (bcrypt, jsonwebtoken, rand,
  regex, percent-encoding, oauth2, uuid, chrono, serde_json, axum's status
  codes) stand behind small trusted items whose contracts are documented
  where they are declared.
- `app/` — the server: configuration file, logging, PostgreSQL and Redis,
  HTTP routes, extractors and middlewares, GitHub calls, OpenAPI document.
  It reads and writes and lets the library decide.
- `tests/` — tests of the library on concrete values.
