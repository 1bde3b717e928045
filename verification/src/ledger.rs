use vstd::prelude::*;

verus! {

/// The accounting triple of one order: total committed size, the part already
/// settled, and the part reserved by open tickets. Every operation of the
/// engine acts on an order's triple through one of the steps below.
#[derive(Clone, Copy, PartialEq, Eq, Structural, Debug)]
pub struct LedgerView {
    pub committed: u64,
    pub settled: u64,
    pub reserved: u64,
}

/// Conservation: the settled and reserved parts never exceed the committed size.
pub open spec fn ledger_inv(l: LedgerView) -> bool {
    l.settled + l.reserved <= l.committed
}

/// Capacity neither settled nor reserved; non-negative whenever `ledger_inv` holds.
pub open spec fn ledger_available(l: LedgerView) -> int {
    l.committed - l.settled - l.reserved
}

/// The ways one operation may move an order's accounting triple.
pub enum LedgerOp {
    /// A ticket is opened: its amount is reserved.
    Reserve { amount: u64 },
    /// A ticket settles: its amount moves from reserved to settled.
    Settle { amount: u64 },
    /// A ticket is refunded: its amount leaves the reserved part; with
    /// `shrink`, the committed size is burned by the same amount (a sell
    /// order's refunded value goes back to the depositor).
    Refund { amount: u64, shrink: bool },
    /// Part of the unreserved remainder is released out of custody: the
    /// committed size burns by exactly that amount.
    Withdraw { amount: u64 },
    /// The creator withdraws the whole unreserved remainder: the committed
    /// size drops to exactly what is settled plus what is reserved.
    Shrink,
}

/// When a step is permitted: a reservation must fit into the available
/// capacity, and a resolution never releases more than is reserved.
pub open spec fn op_allowed(l: LedgerView, op: LedgerOp) -> bool {
    match op {
        LedgerOp::Reserve { amount } => 0 < amount && amount <= ledger_available(l),
        LedgerOp::Settle { amount } => amount <= l.reserved,
        LedgerOp::Refund { amount, shrink } => amount <= l.reserved,
        LedgerOp::Withdraw { amount } => amount <= ledger_available(l),
        LedgerOp::Shrink => true,
    }
}

/// The triple after a permitted step.
pub open spec fn op_apply(l: LedgerView, op: LedgerOp) -> LedgerView {
    match op {
        LedgerOp::Reserve { amount } => LedgerView {
            committed: l.committed,
            settled: l.settled,
            reserved: (l.reserved + amount) as u64,
        },
        LedgerOp::Settle { amount } => LedgerView {
            committed: l.committed,
            settled: (l.settled + amount) as u64,
            reserved: (l.reserved - amount) as u64,
        },
        LedgerOp::Refund { amount, shrink } => LedgerView {
            committed: if shrink {
                (l.committed - amount) as u64
            } else {
                l.committed
            },
            settled: l.settled,
            reserved: (l.reserved - amount) as u64,
        },
        LedgerOp::Withdraw { amount } => LedgerView {
            committed: (l.committed - amount) as u64,
            settled: l.settled,
            reserved: l.reserved,
        },
        LedgerOp::Shrink => LedgerView {
            committed: (l.settled + l.reserved) as u64,
            settled: l.settled,
            reserved: l.reserved,
        },
    }
}

/// Law: one permitted step preserves conservation.
pub proof fn lemma_op_preserves_conservation(l: LedgerView, op: LedgerOp)
    requires
        ledger_inv(l),
        op_allowed(l, op),
    ensures
        ledger_inv(op_apply(l, op)),
{
}

/// The triple after a whole sequence of attempted steps, applied oldest first;
/// a step that is not permitted at its turn fails and changes nothing.
pub open spec fn apply_ops(l: LedgerView, ops: Seq<LedgerOp>) -> LedgerView
    decreases ops.len(),
{
    if ops.len() == 0 {
        l
    } else {
        let prev = apply_ops(l, ops.drop_last());
        if op_allowed(prev, ops.last()) {
            op_apply(prev, ops.last())
        } else {
            prev
        }
    }
}

/// Law (conservation): after any sequence of operations on one order,
/// `settled + reserved <= committed` still holds.
pub proof fn lemma_conservation(l: LedgerView, ops: Seq<LedgerOp>)
    requires
        ledger_inv(l),
    ensures
        ledger_inv(apply_ops(l, ops)),
    decreases ops.len(),
{
    if ops.len() > 0 {
        lemma_conservation(l, ops.drop_last());
    }
}

/// The triple after a sequence of reservation requests, oldest first; each
/// request is granted exactly when it fits at its own turn.
pub open spec fn apply_reserves(l: LedgerView, amounts: Seq<u64>) -> LedgerView
    decreases amounts.len(),
{
    if amounts.len() == 0 {
        l
    } else {
        let prev = apply_reserves(l, amounts.drop_last());
        if op_allowed(prev, (LedgerOp::Reserve { amount: amounts.last() })) {
            op_apply(prev, (LedgerOp::Reserve { amount: amounts.last() }))
        } else {
            prev
        }
    }
}

/// Sum of exactly those requests that are granted, in commit order.
pub open spec fn accepted_total(l: LedgerView, amounts: Seq<u64>) -> int
    decreases amounts.len(),
{
    if amounts.len() == 0 {
        0
    } else {
        let prev = apply_reserves(l, amounts.drop_last());
        accepted_total(l, amounts.drop_last()) + if op_allowed(
            prev,
            (LedgerOp::Reserve { amount: amounts.last() }),
        ) {
            amounts.last() as int
        } else {
            0
        }
    }
}

/// Law (no double-reservation): for any burst of reservation requests against
/// one order, exactly the prefix-feasible subset is granted; the reserved
/// total afterwards is the old total plus the sum of the granted amounts, the
/// committed and settled parts are untouched, and conservation still holds, so
/// the granted amounts can never oversubscribe the available capacity.
pub proof fn lemma_no_double_reservation(l: LedgerView, amounts: Seq<u64>)
    requires
        ledger_inv(l),
    ensures
        apply_reserves(l, amounts).committed == l.committed,
        apply_reserves(l, amounts).settled == l.settled,
        apply_reserves(l, amounts).reserved == l.reserved + accepted_total(l, amounts),
        ledger_inv(apply_reserves(l, amounts)),
        l.reserved + accepted_total(l, amounts) <= l.committed - l.settled,
    decreases amounts.len(),
{
    if amounts.len() > 0 {
        lemma_no_double_reservation(l, amounts.drop_last());
    }
}

} // verus!
