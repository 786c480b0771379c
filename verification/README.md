# turbo-cdn

A download accelerator: mirror selection, concurrent ranged downloads with
resume, a download cache, a DNS cache, compliance checks on what is
downloaded, and release listings from GitHub with a jsDelivr fallback.

## Layout

- `src/` — the library, verified with Verus. It holds the decisions and data
  structures: how files are cut into ranges, what follows a failed attempt,
  which cache entries are kept, evicted, compressed and returned, how the DNS
  cache answers, which requests pass the compliance rules, which releases are
  kept, the configuration defaults and the rules a configuration must meet.
  Calls into `sha2`, `flate2`, `regex`, `url`, `dirs` and `dashmap` (the DNS
  cache's map) stand behind small trusted wrappers whose contracts say what
  the library relies on. The domain registry and the cache index keep their
  entries in vectors where a standard hash map would do (vstd's hash map
  specifications do not cover `String` keys); no key occurs twice in them,
  which the domain manager's and the cache manager's contracts state.
- `tests/` — tests of the library on concrete values.
- `app/` — the `turbo-cdn` command-line program and everything that does I/O
  or floating-point work: HTTP transfers (reqwest), files, clocks, logging
  setup, configuration loading, speed and quality measurements, and the
  smart download mode. It hands the library plain values and acts on what
  the library decides.
