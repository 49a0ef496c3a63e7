# gcsf

The part of a file system over Google Drive that stands between the file system and the drive,
written in Rust and proved with Verus.

- `src/` is the library. It never talks to the drive: an operation that needs the drive says what
  to ask (`src/request.rs`), and takes the answer in a second step. What each operation does to
  the state of the facade, what it asks and what it returns is stated in its contract; what holds
  of several operations together is stated and proved in `src/laws.rs`, and beside the types that
  it is about in `src/pending.rs`, `src/cache.rs`, `src/listing.rs` and `src/dummy_file.rs`.
- `app/` asks the drive. It turns requests into calls of `google-drive3` and hands the answers
  back.
- `tests/` runs the library.

What is believed without proof: the contracts of the functions of `lru_time_cache`,
`mime-sniffer`, `serde_json` with `yup-oauth2`, and `String::push`, each stated where the function
is wrapped (`src/cache.rs`, `src/mime.rs`, `src/secret.rs`, `src/dummy_file.rs`).
