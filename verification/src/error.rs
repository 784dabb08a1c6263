//! The error taxonomy shared by every fallible field operation.

use vstd::prelude::*;

verus! {

/// A typed failure of a field operation.
///
/// Each fallible operation returns exactly one of these kinds; no operation
/// panics on the inputs described by its contract.
#[derive(Debug, Clone, Copy, PartialEq, Eq, Structural)]
pub enum ModCError {
    /// Construction was attempted with a zero modulus.
    ModulusZero,
    /// A multiplicative inverse was requested for zero.
    InverseZero,
    /// An addition or exponentiation exceeded the 256-bit working width.
    Overflow,
    /// A multiplication exceeded the working width, or a division by zero
    /// was requested; the label is shared by both conditions.
    Underflow,
    /// Reserved for a defensive check of the additive inverse; no operation
    /// currently returns it.
    NoAdditiveInverse,
}

} // verus!
