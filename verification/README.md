# Aphanite

A self-hostable Yggdrasil (Minecraft authentication) server, written in Rust
and verified with Verus.

## Layout

- `src/` — the verified library. The server's rules stand here with
  contracts: request and field validation, the token and session rules,
  the login rate limiter and the in-memory caches (`kv_cache`), TOTP
  enrolment and verification (`service::phenocryst`), the Yggdrasil endpoints'
  decisions, profile property signing, texture upload processing, the
  frontend's asset and range handling, the schema migrations (file names,
  order, which are pending, which access token is evicted at the cap), and
  the configuration checks.
  Calls into outside crates (`scc`, `uuid`, `base64`, `sha1`, `rsa`, `argon2`,
  `totp-rs`, `image`, `rand`, `url`, `axum`'s status table) go through small
  trusted wrappers whose contracts are documented next to them.
- `app/` — the program around the library: command line, configuration file,
  database (toasty) with the queries that go with it (token refresh, profile
  records, running each pending migration script of `migrations/<backend>/`
  in its own transaction), HTTP routing (axum) and the JSON forms of the
  library's types.
- `tests/` — tests of the library on concrete values.

## Building and verifying

The library is verified by running Verus on `src/lib.rs`; `tests/` run with
the ordinary test harness.
