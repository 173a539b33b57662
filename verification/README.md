# gguf_rs

Reading GGUF (GGML Universal Format) files, the container format of
quantized language models: the header, the key-value metadata and the
tensor descriptions. The library is written in Verus; every function in
`src/` carries a contract that Verus proves, except the small
`external_body` wrappers around `byteorder` and std (byte-order reads,
`String::from_utf8_lossy`, `String::push`, the end-of-input and I/O-message
helpers), whose contracts are trusted.

Layout:

- `src/bytes.rs` — fixed-width integers in either byte order, read at a
  position of a byte buffer (through `byteorder`).
- `src/layout.rs` — the file format as specifications: what reading a
  header, a string, a value, an array, a metadata entry or a tensor
  description from a position yields.
- `src/model.rs` — `GGUFContainer`, which decodes the bytes of a file into
  a `GGUFModel`, and the model's accessors.
- `src/metadata.rs` — `MetadataMap`, the metadata kept in key order.
- `src/types.rs`, `src/value.rs` — byte order, value and tensor types,
  metadata values and their conversions.
- `src/text.rs`, `src/error.rs` — numbers and names as text, errors and
  their messages.
- `src/laws.rs` — properties of the library as a whole.
- `app/` — opening files, and printing the values whose text needs
  floating point.
