use vstd::prelude::*;

verus! {

/// Why an operation was rejected. Every failure is total: an operation that
/// returns an error commits no write at all.
#[derive(Clone, Copy, Debug, PartialEq, Eq, Structural)]
pub enum Error {
    /// A second initialization attempt.
    AlreadyInitialized,
    /// A privileged operation was invoked before an administrator exists.
    NotInitialized,
    /// The decimal precision does not fit an 8-bit unsigned range.
    InvalidDecimal,
    /// An amount parameter was negative.
    NegativeAmount,
    /// The invoking context lacks the required principal's authorization.
    Unauthorized,
    /// A spend exceeded the account's available balance.
    InsufficientBalance,
    /// A spend exceeded the pair's effective allowance.
    InsufficientAllowance,
    /// The operation is blocked by an active freeze record on the relevant
    /// account.
    AccountFrozen,
    /// `amount > 0` together with an expiration boundary already in the past.
    InvalidExpiration,
    /// Adding the freeze duration to the current ledger sequence number would
    /// overflow the time representation.
    InvalidAction,
    /// A balance addition would overflow its numeric width.
    ArithmeticOverflow,
}

} // verus!
