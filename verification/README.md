# sdk

Code generators of the WASM graph SDK, verified with Verus.

- `src/tokens.rs`: `proc_macro2::TokenStream` as a sequence of plain token
  trees, and the trusted constructors of `proc_macro2`.
- `src/syntax.rs`: the `syn` parsers the generators call, each behind a
  trusted wrapper whose result is named over the trees of its input.
- `src/wit.rs`: adding the default WIT path to bindgen invocations, and the
  default WIT directory (joined as `Path::join` joins on Unix).
- `src/options.rs`: the options of the operator attributes.
- `src/operator.rs`: the operator attributes and the modules they expand to.
- `src/defaults.rs`: the default `use` items and `impl` blocks.
- `app/lib.rs`: the macro entry points: reading `SDK_WIT_PATH`, and panicking
  where a macro refuses its input.
