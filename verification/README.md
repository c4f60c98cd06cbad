# laberry_core

The core of the LaBerry chat server, verified with Verus: the functions in
`src/` carry `requires`/`ensures` contracts that Verus proves, and the laws
that tie several of them together are proof functions.

The calls into outside crates and into parts of `std` that Verus does not
specify (regex searches, URL parsing, time formatting, password hashing,
random bytes, base64, form encoding, Unicode case mapping, lossy UTF-8
decoding, string collection) go through small wrappers marked
`#[verifier::external_body]`. Their contracts are trusted, not proved; each
wrapper's doc comment says what it claims of the call it makes. The regex
wrappers take their pattern as an argument: the patterns, and the choice of
groups and defaults in what they find, are in verified code.

## Layout

- `src/` — the verified library
  - `text`, `html`, `encoding`, `paths` — text handling, HTML escaping,
    percent and form encoding, storage paths
  - `patterns` — regular-expression searches made by the `regex` crate
  - `sha256` — streaming SHA-256 used for upload content hashes
  - `filetype` — content-type detection from magic numbers, names and
    declared types
  - `files` — uploads, deduplication, access to chat files, byte ranges,
    archive listings, image limits and pixel hashes
  - `auth` — registration and sign-in decisions, the second factor, token
    refresh, and the status and text of each refusal
  - `sessions` — the table of refresh sessions: rotation on refresh and
    revocation on signing out everywhere
  - `chats`, `dm`, `e2ee` — chat access, direct and group conversations,
    message rules, stored room keys
  - `downloads`, `embeds`, `homie` — client builds, link previews, assistant
    replies
  - `admin`, `admin_users`, `admin_content`, `admin_pages` — the
    administration panel's settings, sessions and HTML
- `tests/` — tests of the library on concrete values
- `app/` — pieces of the HTTP, database, file and network side that hand
  plain values to the library

## Running

`verus` verifies the library; `cargo test` runs the tests.
