//! Errors an ADI device can report, and the native driver's sentinel value.

use vstd::prelude::*;

verus! {

/// The value the native driver returns from an initialization or read call
/// to signal failure (the largest `i32`).
pub const PROS_ERR: i32 = 2147483647;

/// Errors that can arise from an ADI device.
#[derive(Debug, Clone, Copy, PartialEq, Eq)]
pub enum AdiError {
    /// The ping and echo ports were not both on the same port expander.
    ExpanderPortMismatch,
    /// A native driver call returned its sentinel failure value.
    NativeFailure,
}

} // verus!
