//! Generation of foreign-function bindings: the Rust side that exports a
//! library over a C ABI and the Dart side that calls it, plus the runtime
//! pieces that the generated code relies on.

pub mod text;
pub mod abi;
pub mod export;
pub mod import;
pub mod rust_gen;
pub mod rust_items;
pub mod rust_api;
pub mod dart_gen;
pub mod dart_api;
pub mod harness;
pub mod runtime;
pub mod example;
