use vstd::prelude::*;

verus! {

/// Everything that can go wrong while handling a request. Every failure is
/// terminal for the call: no error is retried or recovered internally.
#[derive(Clone, Copy, Debug, PartialEq, Eq, Structural)]
pub enum ContractError {
    /// A grid or cell payload of the wrong length was submitted.
    InvalidZValue,
    /// A coordinate lies outside the grid.
    IndexOutOfBounds,
    /// The payment attached to a write is below the computed cost.
    InsufficientFunds,
    /// A query or update arrived before the grid was created.
    NotInitialized,
    /// The pricing computation exceeded the 128-bit amount range.
    ArithmeticOverflow,
}

} // verus!
