//! Executes an arithmetic circuit against a partial witness assignment,
//! interleaving host callbacks, and bridges field-element data into a
//! sandboxed native module that supplies a few cryptographic primitives.

pub mod blackbox;
pub mod bridge;
pub mod errors;
pub mod execute;
pub mod field;
pub mod stubs;
pub mod wasm_value;
pub mod witness;
