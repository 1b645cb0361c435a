# ffi_gen

Generates the two halves of foreign-function bindings for a Rust library:
`extern "C"` functions on the Rust side and a Dart `Api` class that calls
them through `dart:ffi`.

- `src/` is the verified library. Each generator function returns text and
  states in its contract exactly which text, as a spec function of its input
  (`rust_gen`, `rust_items`, `rust_api` for Rust; `dart_gen`, `dart_api` for
  Dart). `abi`, `export` and `import` hold the lowered interface that the
  generators read; `runtime` and `example` hold the logic of the generated
  runtime and of the example library; `harness` builds the texts of the
  end-to-end check programs.
- `app/` holds what stays outside: raw memory, wakers and boxed futures,
  network and console I/O, floating-point buffers, and the checks that write
  files and start compilers.
- `tests/` runs the generators on concrete interfaces.
