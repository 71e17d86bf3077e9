use vstd::prelude::*;

verus! {

/// Every failure that the program's operations report.
#[derive(Clone, Copy, Debug, PartialEq, Eq, Structural)]
pub enum ErrorCode {
    /// The two mints of a pool are equal or not in canonical order.
    InvalidTokenMintOrder,
    /// The data of mint A is not a valid, initialised token mint.
    InvalidMintAccount,
    /// An account does not belong to the config or pool that it is used with,
    /// or a fee tier does not serve the requested tick spacing.
    AccountMismatch,
    /// A rate in basis points is above its bound.
    FeeRateMaxExceeded,
    /// The pool has been disabled by its administrator.
    PoolDisabled,
    /// A checked division had a zero divisor.
    DivideByZero,
    /// A checked multiplication left the 128-bit range.
    MultiplicationOverflow,
    /// A result did not fit in 64 bits.
    NumberCastError,
    /// The output of an exact-input swap is below the caller's minimum.
    AmountOutBelowMinimum,
    /// The input of an exact-output swap is above the caller's maximum.
    AmountInAboveMaximum,
    /// The signer is not the authority that the operation requires.
    AuthorizationFailure,
    /// A pool with the same config, mints and tick spacing already exists.
    PoolAlreadyInitialized,
    /// The swap computation failed; its own code is carried unchanged.
    SwapEngine(u32),
}

} // verus!
