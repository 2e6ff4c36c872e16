# cds-web

The request rules of the CdsCTF web API, verified with Verus.

- `src/` is the library. Each handler of the API is split into what it
  decides and what it reads or writes; the decisions stand here as functions
  on plain values (the account, game, team, challenge or pod that was looked
  up, the counter that was read, the verdict of a checker) with contracts that
  say what each returns for every input. Laws that relate several functions
  (rate limits over a window, invitation and mail codes that verify, the
  registered password that signs in, the first solve that counts, a mailed
  code and the one-minute resend window, a pending identity that serves one
  registration) are proof functions beside them; those over repeated requests
  are stated on a model of the cache (`util/cache.rs`), whose reads and
  writes the library plans and `app/` performs.
- Calls into `argon2`, `jsonwebtoken`, `regex`, `scraper`, `uuid`, `mime`,
  `nanoid`, `serde_json` and `validator` go through small trusted wrappers
  whose contracts name what the crate computes.
- `app/` is the HTTP layer: Axum routes that read and write the database,
  cache, cluster, object storage and queues, and hand what they read to the
  library.
- `tests/` runs the library with the real outside crates.
