//! Error taxonomy: bridge failures, typed-conversion failures, and
//! opcode-resolution failures reported while solving.

use vstd::prelude::*;

verus! {

/// A failure inside the native-module bridge.
#[derive(Debug, Clone, PartialEq, Eq)]
pub enum FeatureError {
    /// Invoking the named export trapped or otherwise failed.
    FunctionCallFailed { name: String },
    /// No export of the given name exists in the module.
    InvalidExport { name: String },
    /// No value available when a value was expected.
    NoValue,
    /// Value expected to be a 32-bit integer word.
    InvalidI32,
    /// The returned word does not fit an unsigned 32-bit integer.
    InvalidU32 { value: i32 },
    /// The returned word does not fit a pointer-sized integer.
    InvalidUsize { value: i32 },
    /// Value expected to be 0 or 1, representing a boolean.
    InvalidBool,
    /// A read or write reached past the current size of the linear memory.
    OutOfBoundsMemoryAccess,
}

/// A bridge failure, as surfaced to the bridge's callers.
#[derive(Debug, Clone, PartialEq, Eq)]
pub enum Error {
    FromFeature(FeatureError),
}

/// The blackbox functions the native module supplies.
#[derive(Debug, Clone, Copy, PartialEq, Eq, Structural)]
pub enum BlackBoxFunc {
    SchnorrVerify,
    Pedersen,
    FixedBaseScalarMul,
}

/// Why a blackbox function could not be resolved.
#[derive(Debug, Clone, PartialEq, Eq)]
pub enum BlackBoxReason {
    /// The signature did not reduce to exactly 64 bytes; reported before
    /// any module call is made.
    InvalidSignatureLength { found: usize },
    /// Fewer output witness slots were designated than the function writes.
    NotEnoughOutputs { expected: usize, found: usize },
    /// Only a zero domain separator is supported; a non-zero one is
    /// rejected rather than silently ignored.
    NonZeroDomainSeparator { separator: u32 },
    /// The underlying module call failed.
    Bridge(FeatureError),
}

/// A failure while resolving one opcode.
#[derive(Debug, Clone, PartialEq, Eq)]
pub enum OpcodeResolutionError {
    /// A witness index an opcode references is absent from the witness map.
    OpcodeNotSolvable { missing_assignment: u32 },
    /// A blackbox function could not be resolved.
    BlackBoxFunctionFailed { func: BlackBoxFunc, reason: BlackBoxReason },
    /// A value was re-inserted over a differing value already recorded.
    UnsatisfiedConstrain,
}

} // verus!
