use vstd::prelude::*;
use crate::actions::{CloseStep, Outcome, Payout};
use crate::auto_close::{auto_close_if_needed, spec_auto_close};
use crate::errors::UniversalOrderError;
use crate::ledger::{op_apply, LedgerOp};
use crate::state::{custody_consistent, TokenAccountInfo, UniversalOrder};

verus! {

/// The first rule an order cancellation breaks, if any: only the creator may
/// cancel; a fully settled order has nothing left to cancel; on a sell order
/// some unreserved custody must remain and the creator must supply a matching
/// refund destination; a buy order may be cancelled only while no ticket is
/// open, since its custody never holds creator value.
pub open spec fn spec_cancel_order_err(
    o: UniversalOrder,
    canceller: u64,
    creator_acct: Option<TokenAccountInfo>,
) -> Option<UniversalOrderError> {
    if canceller != o.creator {
        Some(UniversalOrderError::Unauthorized)
    } else if o.spec_remaining() == 0 {
        Some(UniversalOrderError::OrderCompleted)
    } else if o.is_sell_order {
        if o.spec_available() == 0 {
            Some(UniversalOrderError::CannotCancel)
        } else {
            match creator_acct {
                None => Some(UniversalOrderError::TokenAccountRequired),
                Some(a) => if a.mint != o.crypto_mint {
                    Some(UniversalOrderError::InvalidTokenAccount)
                } else if a.owner != o.creator {
                    Some(UniversalOrderError::Unauthorized)
                } else {
                    None
                },
            }
        }
    } else {
        if o.reserved_amount != 0 {
            Some(UniversalOrderError::CannotCancel)
        } else {
            None
        }
    }
}

/// The order after cancellation: the committed size shrinks to exactly what
/// is settled plus what open tickets still reserve, so no new capacity is
/// available; open tickets, if any, run to their own resolution.
pub open spec fn spec_cancelled_order(o: UniversalOrder, now: i64) -> UniversalOrder {
    UniversalOrder {
        crypto_amount: (o.filled_amount + o.reserved_amount) as u64,
        updated_at: now,
        ..o
    }
}

/// Cancel the unreserved remainder of an order, creator-only. On a sell order
/// the unreserved custody goes back to the creator and the committed size
/// shrinks to what is settled plus reserved; a buy order (no creator value in
/// custody) is simply frozen at its settled size, and only while no ticket is
/// open. When nothing stays reserved and custody is drained, the custody
/// account and the order record are destroyed, in that order. On failure
/// nothing changes.
pub fn cancel_order(
    order: &mut UniversalOrder,
    canceller: u64,
    vault_balance: u64,
    creator_token_account: Option<TokenAccountInfo>,
    now: i64,
) -> (r: Result<Outcome, UniversalOrderError>)
    requires
        old(order).inv(),
        custody_consistent(*old(order), vault_balance),
        0 <= now,
    ensures
        final(order).inv(),
        match spec_cancel_order_err(*old(order), canceller, creator_token_account) {
            Some(e) => r == Err::<Outcome, UniversalOrderError>(e) && *final(order) == *old(order),
            None => {
                let released = if old(order).is_sell_order {
                    old(order).spec_available()
                } else {
                    0u64
                };
                &&& r matches Ok(out)
                &&& *final(order) == spec_cancelled_order(*old(order), now)
                &&& final(order).ledger() == op_apply(old(order).ledger(), LedgerOp::Shrink)
                &&& out.transfers@ =~= if old(order).is_sell_order {
                    seq![(Payout { to: old(order).creator, amount: released })]
                } else {
                    Seq::<Payout>::empty()
                }
                &&& out.closes@ =~= spec_auto_close(
                    *final(order),
                    (vault_balance - released) as u64,
                    false,
                )
                &&& custody_consistent(*final(order), (vault_balance - released) as u64)
            },
        },
{
    if canceller != order.creator {
        return Err(UniversalOrderError::Unauthorized);
    }
    if order.remaining_amount() == 0 {
        return Err(UniversalOrderError::OrderCompleted);
    }
    let mut transfers: Vec<Payout> = Vec::new();
    let released: u64;
    if order.is_sell_order {
        let releasable: u64 = order.available_amount();
        if releasable == 0 {
            return Err(UniversalOrderError::CannotCancel);
        }
        let ca: TokenAccountInfo = match &creator_token_account {
            None => {
                return Err(UniversalOrderError::TokenAccountRequired);
            },
            Some(a) => *a,
        };
        if ca.mint != order.crypto_mint {
            return Err(UniversalOrderError::InvalidTokenAccount);
        }
        if ca.owner != order.creator {
            return Err(UniversalOrderError::Unauthorized);
        }
        transfers.push(Payout { to: order.creator, amount: releasable });
        released = releasable;
    } else {
        if order.reserved_amount != 0 {
            return Err(UniversalOrderError::CannotCancel);
        }
        released = 0;
    }
    order.crypto_amount = order.filled_amount + order.reserved_amount;
    order.updated_at = now;
    let balance_after: u64 = vault_balance - released;
    let closes: Vec<CloseStep> = auto_close_if_needed(order, balance_after, false);
    Ok(Outcome { transfers, closes })
}

} // verus!
