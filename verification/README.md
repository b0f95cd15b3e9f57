# ratex_ffi

The C interface of the RaTeX math typesetter, with its decisions verified in Verus.

- `src/` is the verified library: decoding of the versioned option structs (a field is
  read only when it lies within `struct_size`), validation of colors and sizes (floats
  are handled as IEEE-754 bit patterns), the order in which failures are reported, the
  result records and error messages, the per-thread last-error slot, and the pipeline
  that drives the RaTeX parser, layout engine and exporters.
- `app/` is the unverified shell: the `extern "C"` entry points, reading and writing C
  memory, JSON serialisation of display lists, and the thread-local last error.
- `tests/` exercise both the entry-point scenarios and the library functions.
