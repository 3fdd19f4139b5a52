# lingjing

The core of Lingjing, a desktop studio that sends video, image, speech and
chat requests to AI gateways. The library in `src/` is written in Verus and
proved against its contracts: stores, validation, request bodies, stream
framing and the parsing of gateway answers. The plain Rust in `app/` does
the I/O around it: HTTP, SQLite, files, async plumbing and serialization.

## Layout

- `src/` is the verified library:
  - `domain.rs` holds the data model (gateway profiles, jobs, requests,
    chat messages, assets).
  - `registry.rs`, `jobs.rs`, `assets.rs`, `secrets.rs` and `keyed.rs` are the
    in-memory stores, each with a map view and a well-formedness invariant.
  - `adapters.rs` picks the protocol adapter and endpoints of a profile.
  - `validation.rs` and `checks.rs` check requests against model capabilities
    and shape ids, MIME types and outputs.
  - `http.rs`, `video.rs` and `chat.rs` decide URLs, status errors, mock
    replies, multipart bodies, video status parsing and stream framing.
  - `bodies.rs` builds the JSON request bodies as plain records.
  - `media.rs` keeps file operations under the media root.
  - `text.rs` holds the string operations the rest is written with.
  - `outside.rs` holds the trusted calls into uuid, chrono, base64,
    serde_json and std.
  - `laws.rs` states and proves the properties that span several calls.
- `tests/` runs the library on concrete values.
- `app/` is the unverified shell: the command handlers, HTTP client,
  SQLite persistence, file I/O and the Windows credential vault.
