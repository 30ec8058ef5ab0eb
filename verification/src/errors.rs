//! Error codes of the program.
use vstd::prelude::*;

verus! {

/// The program's own error codes.
#[derive(Debug, Clone, Copy, PartialEq, Eq, Structural)]
pub enum PerpsError {
    /// Leverage too high
    LeverageTooHigh,
    /// Insufficient margin
    InsufficientMargin,
    /// Position would exceed per-market max size
    MaxPositionExceeded,
    /// Unauthorized
    Unauthorized,
    /// Math overflow
    MathOverflow,
    /// Oracle price stale or invalid
    BadOracle,
}

/// A failed key-equality requirement: two account keys that an instruction
/// requires to be equal differ.
#[derive(Debug, Clone, Copy, PartialEq, Eq, Structural)]
pub enum KeyCheckError {
    RequireKeysEqViolated,
}

} // verus!
