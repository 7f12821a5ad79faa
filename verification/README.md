# autocxx_codegen

Verified code generation for bridges between Rust and C++: the C++ glue that surrounds a bridge,
and the Rust declarations and wrappers that go into it.

- `src/` is the library. Every function states exactly what text or syntax it generates, and
  Verus proves it. `src/codegen_cpp` writes the additional C++ header and implementation,
  `src/codegen_rs` the bridge entry of a function and the wrapper that Rust code calls. What holds
  of the generated code as a whole stands in the `laws` module of each.
- `tests/` runs the library on concrete declarations.
- `app/` hands the generated Rust code on as `syn` nodes and logs the generated C++ code.

The library joins strings with `itertools`, writes string literals with `quote`, and asks `syn`
whether what it put together is valid Rust. What it relies on there is stated at the functions
`join` in `src/text.rs` and `quote_str` and `parse_*` in `src/codegen_rs/syntax.rs`.

`proc_macro2`, `quote` and `syn` are used without their feature `proc-macro`. With it, what they
answer would depend on whether the code runs inside a procedural macro.
