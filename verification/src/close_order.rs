use vstd::prelude::*;
use crate::actions::{CloseStep, Outcome, Payout};
use crate::constants::ORDER_CLOSE_DUST;
use crate::errors::UniversalOrderError;
use crate::state::{custody_consistent, TokenAccountInfo, UniversalOrder};

verus! {

/// The first rule an explicit close breaks, if any: only the creator or the
/// operator may close; no ticket may still be open; the remainder must be at
/// or below the dust threshold; and on a sell order with a nonzero remainder,
/// the creator must supply a matching account for the sweep.
pub open spec fn spec_close_order_err(
    o: UniversalOrder,
    closer: u64,
    admin: u64,
    creator_acct: Option<TokenAccountInfo>,
) -> Option<UniversalOrderError> {
    if closer != o.creator && closer != admin {
        Some(UniversalOrderError::Unauthorized)
    } else if o.reserved_amount != 0 {
        Some(UniversalOrderError::CannotCancel)
    } else if o.spec_remaining() > ORDER_CLOSE_DUST {
        Some(UniversalOrderError::CannotCancel)
    } else if o.is_sell_order && o.spec_remaining() > 0 {
        match creator_acct {
            None => Some(UniversalOrderError::TokenAccountRequired),
            Some(a) => if a.mint != o.crypto_mint {
                Some(UniversalOrderError::InvalidTokenAccount)
            } else if a.owner != o.creator {
                Some(UniversalOrderError::Unauthorized)
            } else {
                None
            },
        }
    } else {
        None
    }
}

/// Close an order whose remainder is dust and whose reservations are all
/// resolved: any sub-dust remainder in custody is swept back to the creator
/// first, then the custody account and the order record are destroyed, in
/// that order. The creator or the operator `admin` may close. On failure
/// nothing changes and nothing is destroyed.
pub fn close_order(
    order: &UniversalOrder,
    closer: u64,
    admin: u64,
    vault_balance: u64,
    creator_token_account: Option<TokenAccountInfo>,
) -> (r: Result<Outcome, UniversalOrderError>)
    requires
        order.inv(),
        custody_consistent(*order, vault_balance),
    ensures
        match spec_close_order_err(*order, closer, admin, creator_token_account) {
            Some(e) => r == Err::<Outcome, UniversalOrderError>(e),
            None => {
                let swept = if order.is_sell_order {
                    order.spec_remaining()
                } else {
                    0u64
                };
                &&& r matches Ok(out)
                &&& out.transfers@ =~= if order.is_sell_order && order.spec_remaining() > 0 {
                    seq![(Payout { to: order.creator, amount: swept })]
                } else {
                    Seq::<Payout>::empty()
                }
                &&& out.closes@ =~= seq![CloseStep::Vault, CloseStep::Order]
                &&& vault_balance == swept
            },
        },
{
    if closer != order.creator && closer != admin {
        return Err(UniversalOrderError::Unauthorized);
    }
    if order.reserved_amount != 0 {
        return Err(UniversalOrderError::CannotCancel);
    }
    let remaining: u64 = order.remaining_amount();
    if remaining > ORDER_CLOSE_DUST {
        return Err(UniversalOrderError::CannotCancel);
    }
    let mut transfers: Vec<Payout> = Vec::new();
    if order.is_sell_order && remaining > 0 {
        let ca: TokenAccountInfo = match &creator_token_account {
            None => {
                return Err(UniversalOrderError::TokenAccountRequired);
            },
            Some(a) => *a,
        };
        if ca.mint != order.crypto_mint {
            return Err(UniversalOrderError::InvalidTokenAccount);
        }
        if ca.owner != order.creator {
            return Err(UniversalOrderError::Unauthorized);
        }
        transfers.push(Payout { to: order.creator, amount: remaining });
    }
    let mut closes: Vec<CloseStep> = Vec::new();
    closes.push(CloseStep::Vault);
    closes.push(CloseStep::Order);
    proof {
        assert(closes@ =~= seq![CloseStep::Vault, CloseStep::Order]);
    }
    Ok(Outcome { transfers, closes })
}

} // verus!
