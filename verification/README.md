# cs_core

Platform-agnostic core of an end-to-end encrypted chat store, written in
Verus and verified.

* `src/` — the verified library: the HKDF key tree and epoch rotation,
  AES-KW key wrapping, AEAD sealing, BLAKE3 content hashes, sealed backup
  and archive segments, manifest and frame headers, local-store schema,
  migrations and state machines, link safety, PII redaction, threat and
  content classification, and the archive and backup coordinators' state.
  Calls into outside crates (hkdf, aes-kw, chacha20poly1305, aes-gcm,
  blake3, hex, rand, zstd, uuid) sit behind small trusted wrappers whose
  contracts are stated next to them.
* `tests/` — tests run against the compiled library with the real outside
  crates.
* `app/` — plain Rust around the library: the SQLCipher store (rusqlite),
  CBOR and JSON encoding of wire types, gateway uploads and downloads, and
  results that carry floating-point confidences.
