//! Host and guest logic of a WebAssembly Component Model demo that runs its
//! guests on Wasmtime's Pulley interpreter.

pub mod guest1;
pub mod guest2;
pub mod host;
pub mod runtime;

