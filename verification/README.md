# nkf

A Japanese text-encoding converter in the manner of `nkf`, written in Verus. The conversion
pipeline — encoding guessing, MIME and Base64 decoding and encoding, JIS/EUC/Shift_JIS/UTF
codecs, kana and fullwidth filters, folding, line endings, the command-line option parser and
the configuration reports — is verified against specifications stated in `src/`.

Layout:

- `src/` — the verified library. `lib.rs` holds the public entry points; each module states
  its behaviour as spec functions and proves the executable code against them, together with
  laws such as round trips (ROT13/47, quoted-printable, UTF-16/32, the JIS X 0213 codecs, MIME
  encoded-words written and read back), idempotence (line endings, name normalization), the
  76-byte line bound of MIME output and the width bound of folded lines.
- `tests/` — tests of the library on concrete inputs.
- `app/` — the command-line program around the library: argument handling, file and standard
  I/O, in-place overwriting with timestamp preservation, and the `--exec-in`/`--exec-out`
  modes.

Calls into `encoding_rs`, `base64`, `kanaria` and `unicode-normalization` go through small
trusted wrappers whose contracts are documented beside them.

The EUC family (EUC-JP, CP51932, eucJP-ms, EUC-JIS-2004) is decoded and encoded through the
`encoding_rs` EUC-JP mapping plus small override lists in `src/euc.rs`, standing in for nkf's own
conversion tables; the JIS X 0213 plane-2 table holds no pairs, so 0x8F-led EUC-JIS-2004
sequences are refused. Encodings none of the library's converters serve are handed to the
system `iconv(3)` through the request steps of `src/system.rs`, which the program in `app/`
performs.
