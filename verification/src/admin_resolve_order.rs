use vstd::prelude::*;
use crate::actions::{CloseStep, Outcome, Payout};
use crate::errors::UniversalOrderError;
use crate::ledger::{op_apply, LedgerOp};
use crate::state::{custody_consistent, TokenAccountInfo, UniversalOrder};

verus! {

/// The first rule an order-level override breaks, if any: only the operator
/// may act; a fully settled order has nothing to resolve; on a sell order
/// some unreserved custody must remain, the requested amount must fit it, and
/// the destination must be the creator's account for the order's asset; a buy
/// order admits only a no-value administrative freeze while no ticket is open.
pub open spec fn spec_admin_resolve_order_err(
    o: UniversalOrder,
    admin_signer: u64,
    amount: u64,
    destination: TokenAccountInfo,
    admin: u64,
) -> Option<UniversalOrderError> {
    if admin_signer != admin {
        Some(UniversalOrderError::Unauthorized)
    } else if o.spec_remaining() == 0 {
        Some(UniversalOrderError::OrderCompleted)
    } else if o.is_sell_order {
        if o.spec_available() == 0 {
            Some(UniversalOrderError::CannotCancel)
        } else if amount > o.spec_available() {
            Some(UniversalOrderError::InvalidAmount)
        } else if destination.mint != o.crypto_mint {
            Some(UniversalOrderError::InvalidTokenAccount)
        } else if destination.owner != o.creator {
            Some(UniversalOrderError::Unauthorized)
        } else {
            None
        }
    } else {
        if o.reserved_amount != 0 {
            Some(UniversalOrderError::CannotCancel)
        } else {
            None
        }
    }
}

/// The order after an order-level override: on a sell order the committed
/// size burns by exactly the released amount; a buy order freezes at its
/// settled size.
pub open spec fn spec_admin_resolved_order(o: UniversalOrder, amount: u64, now: i64) -> UniversalOrder {
    UniversalOrder {
        crypto_amount: if o.is_sell_order {
            (o.crypto_amount - amount) as u64
        } else {
            o.filled_amount
        },
        updated_at: now,
        ..o
    }
}

/// Operator override at the order level: on a sell order, move `amount` of
/// the unreserved custody to a creator-owned destination and shrink the
/// committed size by the same amount; on a buy order, freeze the order at its
/// settled size while no ticket is open. Destroys nothing; a drained order is
/// reclaimed by a later close. On failure nothing changes.
pub fn admin_resolve_order(
    order: &mut UniversalOrder,
    admin_signer: u64,
    amount: u64,
    destination_ata: TokenAccountInfo,
    vault_balance: u64,
    admin: u64,
    now: i64,
) -> (r: Result<Outcome, UniversalOrderError>)
    requires
        old(order).inv(),
        custody_consistent(*old(order), vault_balance),
        0 <= now,
    ensures
        final(order).inv(),
        match spec_admin_resolve_order_err(*old(order), admin_signer, amount, destination_ata, admin) {
            Some(e) => r == Err::<Outcome, UniversalOrderError>(e) && *final(order) == *old(order),
            None => {
                let released = if old(order).is_sell_order {
                    amount
                } else {
                    0u64
                };
                &&& r matches Ok(out)
                &&& *final(order) == spec_admin_resolved_order(*old(order), amount, now)
                &&& final(order).ledger() == op_apply(
                    old(order).ledger(),
                    if old(order).is_sell_order {
                        (LedgerOp::Withdraw { amount })
                    } else {
                        LedgerOp::Shrink
                    },
                )
                &&& out.transfers@ =~= if old(order).is_sell_order {
                    seq![(Payout { to: old(order).creator, amount })]
                } else {
                    Seq::<Payout>::empty()
                }
                &&& out.closes@ =~= Seq::<CloseStep>::empty()
                &&& custody_consistent(*final(order), (vault_balance - released) as u64)
            },
        },
{
    if admin_signer != admin {
        return Err(UniversalOrderError::Unauthorized);
    }
    if order.remaining_amount() == 0 {
        return Err(UniversalOrderError::OrderCompleted);
    }
    let mut transfers: Vec<Payout> = Vec::new();
    if order.is_sell_order {
        let releasable: u64 = order.available_amount();
        if releasable == 0 {
            return Err(UniversalOrderError::CannotCancel);
        }
        if amount > releasable {
            return Err(UniversalOrderError::InvalidAmount);
        }
        if destination_ata.mint != order.crypto_mint {
            return Err(UniversalOrderError::InvalidTokenAccount);
        }
        if destination_ata.owner != order.creator {
            return Err(UniversalOrderError::Unauthorized);
        }
        transfers.push(Payout { to: order.creator, amount });
        order.crypto_amount = order.crypto_amount - amount;
    } else {
        if order.reserved_amount != 0 {
            return Err(UniversalOrderError::CannotCancel);
        }
        order.crypto_amount = order.filled_amount;
    }
    order.updated_at = now;
    Ok(Outcome { transfers, closes: Vec::new() })
}

} // verus!
