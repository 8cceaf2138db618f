# uchardet_git

Character-encoding detection on top of the uchardet engine, with the
decisions proved in Verus.

uchardet itself is a C++ library. Whatever it reports — the status code of
each block of data fed to it, and, once the input ends, the table of
candidates (charset name and language as C strings) — reaches the library as
plain values. The library decides everything from there, and Verus checks it:

- `src/detector.rs` — the detector's state: feed status codes, the failure
  flag that stays set until a reset, language names checked for NUL bytes.
- `src/candidates.rs` — the candidate table: lookup by position, the best
  candidate, iteration from both ends, and the reading of charset and
  language names as UTF-8.
- `src/encoding.rs` — mapping a charset name to an encoding of the Encoding
  Standard, through `encoding_rs`.
- `src/bytes.rs` — ASCII case folding and UTF-8 reading of byte strings.
- `src/lib.rs` — one-shot detection of a charset name or encoding.

`app/` drives the C library through its C interface and wraps the verified
types, adding what the verified code cannot hold (floating-point weights and
confidences, `Display`, `Iterator`, the conversion to `&'static
encoding_rs::Encoding`).
