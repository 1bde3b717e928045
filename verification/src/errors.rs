use vstd::prelude::*;

verus! {

/// Error kinds of the order/ticket engine. Every operation either commits in
/// full or fails with exactly one of these kinds, leaving every record as it
/// was; nothing is retried internally.
#[derive(Clone, Copy, PartialEq, Eq, Structural, Debug)]
pub enum UniversalOrderError {
    /// A token account holds less than the operation must move.
    InsufficientBalance,
    /// The operation does not apply to this kind of order.
    InvalidOrderType,
    /// The order record does not exist.
    OrderNotFound,
    /// The acting identity is not the role this operation is gated on.
    Unauthorized,
    /// The order is not in a state that admits this operation.
    InvalidOrderStatus,
    /// A concurrent operation already took the capacity or the signature slot.
    RaceCondition,
    /// The order has no remaining capacity to act on.
    OrderCompleted,
    /// The order was already cancelled.
    OrderCancelled,
    /// The cancellation rules (role or timing) forbid this cancel.
    CannotCancel,
    /// The fiat-paying side must sign before the value-depositing side.
    SignatureRequired,
    /// An amount is zero, oversize, or would overflow.
    InvalidAmount,
    /// The fiat-paying role may not lock value.
    FiatGuyCannotLockCrypto,
    /// The value-depositing role must lock value first.
    CryptoGuyMustLockFirst,
    /// A supplied token account has the wrong asset or the wrong owner.
    InvalidTokenAccount,
    /// An optional token account needed for the chosen path was not supplied.
    TokenAccountRequired,
    /// The per-order cooldown between ticket creations has not elapsed.
    ActionTooFrequent,
    /// The per-order daily ticket quota is exhausted.
    TooManyFillsPerDay,
}

} // verus!
