use vstd::prelude::*;

verus! {

/// One transfer out of an order's custody account: `amount` units of the
/// order's asset to the account owned by `to`.
#[derive(Clone, Copy, PartialEq, Eq, Structural, Debug)]
pub struct Payout {
    pub to: u64,
    pub amount: u64,
}

/// A record the platform must destroy, refunding its storage deposit.
#[derive(Clone, Copy, PartialEq, Eq, Structural, Debug)]
pub enum CloseStep {
    /// The order's custody account. Must always be destroyed before the order
    /// record that is its delegated authority.
    Vault,
    /// The order record.
    Order,
    /// The resolved ticket record.
    Ticket,
}

/// What the platform must perform once an operation has committed: first the
/// custody transfers, in order, then the record destructions, in order. The
/// whole outcome is all-or-nothing; the engine has already made every check,
/// so no transfer here can fail on a well-formed custody account.
#[derive(Debug)]
pub struct Outcome {
    pub transfers: Vec<Payout>,
    pub closes: Vec<CloseStep>,
}

} // verus!
