# hiero_runtime

A verified core for a Hedera/Hiero runtime: configuration and its checks,
error values, transaction references and their Mirror Node paths, the
normalization of Mirror Node answers, retry and backoff decisions, and the
polling decisions behind waiting for receipts, Mirror Node visibility and
scheduled execution. Every function in `src/` carries a contract. Verus
proves them all, except for a few small wrappers around calls into std and
the `time` crate (the clock, `String::push`, `char::is_uppercase`): their
contracts restate what those calls document and are trusted, not proved.

Layout:

- `src/` — the library, checked by Verus: `config`, `error`, `model`,
  `retry`, `mirror`, `dto`, `tx`, `schedule`, `sdk`, `bindings`, `poll`,
  and `text` (the string functions the others are built on).
- `tests/` — tests that run the compiled library.
- `app/` — the unverified layer around it: HTTP calls with `reqwest`, timers
  with `tokio`, the Hiero SDK, JSON with `serde`, and the Node.js addon with
  `napi`. It performs the I/O and hands the library plain values; each
  decision (what path to ask, what an answer means, whether to retry or
  poll again) is a call into `src/`.
