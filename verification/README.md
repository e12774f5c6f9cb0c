# srscheck

Command-line tool that reports the status of several spaced-repetition review
services (WaniKani, Bunpro, Anki via AnkiConnect, KameSame, NativShark, and any
JSON HTTP API read through jq filters), with a per-provider on-disk cache.

Layout:

- `src/` — the library, verified with Verus:
  - `time.rs`: UTC instants as seconds and nanoseconds, chrono's calendar range,
    RFC 3339 parsing and time spans;
  - `cache.rs`: the table of named cache entries and when a cached value is fresh;
  - `providers/`: what each provider asks for and how its answers become review
    counts, including the login, token and session rules;
  - `report.rs`: the rows of the summary — order by name, totals, highlights and the
    next review;
  - `settings.rs`: the configuration.
- `app/` — the program: command line, configuration file, HTTP requests, the cache
  file, running the jq filters that the library has compiled (a filter may run
  forever or end the process), and printing.
- `tests/` — tests of the library.
