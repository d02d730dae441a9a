# lib

The word-level conventions by which Rust values cross the boundary between a
WebAssembly module and its JavaScript host, verified with Verus.

- `src/abi.rs`: the conversion traits (`IntoWasmAbi`, `FromWasmAbi`,
  `RefFromWasmAbi`, `RefMutFromWasmAbi`), the marker `WasmAbi`, the two-word
  `WasmSlice` and the type `Descriptor`.
- `src/words.rs`: arithmetic descriptions of the encodings (halves of a
  64-bit pattern, two's complement, wrapping to a word).
- `src/convert.rs`: the representations of integers and booleans.
- `src/value.rs`: `JsValue`, a handle to a host value, passed as its index.
- `src/stack.rs`: the `Stack` trait and `GlobalStack`, a cursor over the
  sixteen-word argument buffer shared with the host.
- `src/laws.rs`: round-trip laws of the conversions.
- `app/lib.rs`: the global argument buffer itself, the closure shims, and
  the conversions of floats, raw pointers, slices, boxed slices, vectors and
  strings, which pass floats or raw memory.
