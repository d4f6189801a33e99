# rws

A verified core for a small S3-like storage backend and its account services.

- `src/` is the library, checked with Verus: request routing for the four
  services (`entra`, `rws_s3`, `s3`, `sso`), bucket permissions and the
  permissions each operation needs, conditional-request headers, object
  paths and upload metadata (MD5 entity tags), password hashing with Argon2,
  sign-up and sign-in forms, session-token claims, the session cookie and
  sign-in reply, and the SQL that creates and drops the tables.
- `app/` is the HTTP layer (axum, PostgreSQL through bb8, JWT encoding,
  files on disk). It reads requests, calls the library for every decision,
  and performs what the library decides. Run it with the name of a service
  as its first argument.
- `tests/` exercises the library on concrete values.
