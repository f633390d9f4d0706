use vstd::prelude::*;

verus! {

/// The typed errors that every fallible operation of the ledger returns.
///
/// Every arithmetic step of the engine is checked: an overflow, underflow or
/// failed narrowing aborts the whole operation with `MathsError` or
/// `ConversionFailure` before any record is mutated or any transfer issued.
/// State, eligibility and argument errors likewise abort before any effect.
#[derive(Clone, Copy, Debug, PartialEq, Eq, Structural)]
pub enum MinerError {
    /// The caller's eligibility holding is too small for the tier, or the
    /// holding account does not match the mine's value unit or the caller.
    InvalidTokenAccount,
    /// The selected tier is not active.
    InactiveTier,
    /// The mine is currently inactive.
    InactiveMine,
    /// The referral is malformed, for instance a stake referring to itself.
    InvalidReferrer,
    /// The named fee collector is not the mine's fee collector.
    InvalidFeeCollector,
    /// The whitelist grant has expired.
    ExpiredWhiteList,
    /// The deposit amount is not acceptable (zero).
    InvalidDepositAmount,
    /// The tier record does not match the operation: it is inactive where it
    /// must be active, or it is not the tier the stake or grant was opened on.
    InvalidTier,
    /// An argument does not belong to the caller, such as a whitelist grant
    /// made out to someone else.
    InvalidArgument,
    /// The operation is not allowed in the current state, for instance a
    /// compound before the lock duration has elapsed, or a whitelisted stake
    /// used where an ordinary one is required.
    OperationNotAllowed,
    /// A value does not fit the width it must be narrowed to.
    ConversionFailure,
    /// A wide multiplication or division overflowed or divided by zero, or a
    /// balance update would overflow or underflow.
    MathsError,
}

} // verus!
