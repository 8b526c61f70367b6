# zlib_py

A zlib-compatible Python module built on `zlib_rs`, whose core is a library
with machine-checked contracts.

- `src/` is the verified library: `wbits` validation (`params`), result codes
  and errors (`codes`), Adler-32/CRC-32 (`checksum`), one-shot compression and
  decompression (`oneshot`), and the streaming objects (`compressor`,
  `decompressor`, `zlib_decompressor`, with `decoding` describing how a
  decoder moves during one call). Every call into `zlib_rs` goes through
  `engine`, whose contracts are trusted; the streams' contents are named
  there (what a stream consumed, what it produced, what one step returns).
- `app/` is the `pyo3` extension module: argument parsing, buffer access,
  locking, the mapping of library errors to Python exceptions, and
  registration of the module's names.
- `tests/` exercises the library on concrete values.
