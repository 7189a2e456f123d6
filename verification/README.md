# cybermanju_drive

The verified core of Cybermanju Drive, a file manager with triple-layer compression,
post-quantum encryption, face grouping, cloud sync and a web dashboard. Every function
under `src/` carries a contract that Verus proves; the calls into outside crates
(codecs, ciphers, hashing, key exchange, signatures, text encodings, clocks) stand behind
small trusted wrappers whose contracts say what those crates document.

## Layout

- `src/compression/` — the LZ4, Zstandard and Brotli layers, the triple pipeline and the
  per-file compression records, plus the raw-bytes entry points of the browser build.
- `src/crypto/` — ML-KEM hybrid encryption with ChaCha20-Poly1305, ML-DSA and HMAC
  signatures, the key engine, the stored metadata of encrypted files, and the browser
  build's primitives (X25519, HKDF, ML-DSA-65).
- `src/faces/` — union-find, SimHash bucket candidates and the face-group bookkeeping
  that clustering relies on.
- `src/import/` — directory walking decisions and content-type detection for imports.
- `src/search.rs` — index documents, search hits and term completions.
- `src/sync/` — cloud backends' requests and replies, OAuth token refresh.
- `src/web/` — HTTP framing, routing and which routes need a token, the JWT check that
  admits a request and the tokens issued at login, the CORS origin allow-list, query strings, rate limiting, static files, login and the embedded
  dashboard's handlers.
- `src/access.rs`, `src/accounts.rs`, `src/audit.rs`, `src/keystore.rs`,
  `src/membership.rs`, `src/sharing.rs`, `src/versions.rs` — users and permissions,
  accounts, the audit log, stored keys, id lists, share links and file versions.
- `tests/` — tests run against the compiled library.
- `app/` — the server program: sockets, the redb database, JSON, the `curl`
  transfers of the sync backends, EXIF and image work, and the floating-point parts of
  face clustering.
