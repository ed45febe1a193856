//! Code generation for WASM graph operators.
//!
//! The operator attributes (`map_operator`, `filter_operator`,
//! `branch_operator`, `accumulate_operator`, `delay_operator`) turn a user
//! function into a module that implements a processor interface; the bindgen
//! helpers (`with_default_path`, `wit_bindgen`, `wasmtime_bindgen`,
//! `default_wit_path`) point `wit_bindgen::generate!` and
//! `wasmtime::component::bindgen!` at the SDK's WIT directory; the `impl_*`
//! generators emit conversions between the WIT types and std types.
//!
//! Every generator works on `proc_macro2` token streams, seen through
//! `tokens::stream_trees` as sequences of plain token trees, and states the
//! trees it returns.

pub mod defaults;
pub mod operator;
pub mod options;
pub mod syntax;
pub mod tokens;
pub mod wit;
