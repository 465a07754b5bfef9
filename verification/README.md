# michi-api

The decision-making core of the Michi micro server, written in Verus: the
rules behind its HTTP API (authentication gates, rate limits, playback
control, queue edits, imports, settings, pairing, rooms and chains, the
stream proxy, smart playlists, the background workers' decisions) are
executable functions whose contracts are proved.  Reading from disk, the
network and the database, the HTTP routing and the async tasks are not
here: the caller hands the library plain values and acts on what it
returns.  Byte-range parsing and the other logic of the server's sibling
crates (configuration, database, scanner, streaming) lives in those crates
and is not part of this library.

Layout:

- `src/` — the verified library, one module per area of the API; `deps.rs`
  holds the calls into the crates the library builds on (SHA-256, BLAKE3,
  Argon2, base64, UUIDs, RFC 3339 dates, media-type sniffing, randomness,
  JSON field reads, URL decoding), each with the contract its documentation
  supports.
- `tests/` — tests on concrete values, run against the compiled library.
- `app/` — a small command-line tool, not the server: it gathers machine
  statistics and prints the library's diagnostics, and holds the JSON
  shapes of requests.

Verify with `verus` on `src/lib.rs`; the public `law_*` proof functions
state the properties that hold across calls.
