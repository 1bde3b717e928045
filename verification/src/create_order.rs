use vstd::prelude::*;
use crate::errors::UniversalOrderError;
use crate::state::{custody_consistent, TokenAccountInfo, UniversalOrder};

verus! {

/// The first rule an order creation breaks, if any: the amounts must be
/// nonzero, and on a sell order — whose creator locks the committed amount at
/// once — the creator must supply an account holding the order's asset, owned
/// by the creator, with the committed amount available.
pub open spec fn spec_create_order_err(
    crypto_amount: u64,
    fiat_amount: u64,
    is_sell_order: bool,
    creator: u64,
    mint: u64,
    creator_acct: Option<TokenAccountInfo>,
) -> Option<UniversalOrderError> {
    if crypto_amount == 0 || fiat_amount == 0 {
        Some(UniversalOrderError::InvalidAmount)
    } else if is_sell_order {
        match creator_acct {
            None => Some(UniversalOrderError::InvalidOrderType),
            Some(a) => if a.mint != mint {
                Some(UniversalOrderError::InvalidTokenAccount)
            } else if a.owner != creator {
                Some(UniversalOrderError::Unauthorized)
            } else if a.amount < crypto_amount {
                Some(UniversalOrderError::InsufficientBalance)
            } else {
                None
            },
        }
    } else {
        None
    }
}

/// Open an order with no ticket yet. A sell order locks the whole committed
/// amount from the creator into custody at once; a buy order locks nothing —
/// each ticket's counterparty deposits at ticket creation. A granted result
/// is the new order and the amount the platform must move from the creator's
/// account into custody (zero on a buy order). On failure nothing is created.
pub fn create_order(
    order_id: u64,
    crypto_amount: u64,
    fiat_amount: u64,
    is_sell_order: bool,
    creator: u64,
    mint: u64,
    creator_token_account: Option<TokenAccountInfo>,
    now: i64,
) -> (r: Result<(UniversalOrder, u64), UniversalOrderError>)
    requires
        0 <= now,
    ensures
        match spec_create_order_err(
            crypto_amount,
            fiat_amount,
            is_sell_order,
            creator,
            mint,
            creator_token_account,
        ) {
            Some(e) => r == Err::<(UniversalOrder, u64), UniversalOrderError>(e),
            None => {
                &&& r matches Ok(p)
                &&& p.0 == (UniversalOrder {
                    creator,
                    crypto_mint: mint,
                    is_sell_order,
                    crypto_amount,
                    fiat_amount,
                    order_id,
                    filled_amount: 0,
                    reserved_amount: 0,
                    last_action_ts: now,
                    daily_fill_count: 0,
                    daily_reset_ts: now,
                    created_at: now,
                    updated_at: now,
                })
                &&& p.1 == if is_sell_order {
                    crypto_amount
                } else {
                    0u64
                }
                &&& p.0.inv()
                &&& custody_consistent(p.0, p.1)
            },
        },
{
    if crypto_amount == 0 || fiat_amount == 0 {
        return Err(UniversalOrderError::InvalidAmount);
    }
    let lock_amount: u64 = if is_sell_order {
        match &creator_token_account {
            None => {
                return Err(UniversalOrderError::InvalidOrderType);
            },
            Some(a) => {
                if a.mint != mint {
                    return Err(UniversalOrderError::InvalidTokenAccount);
                }
                if a.owner != creator {
                    return Err(UniversalOrderError::Unauthorized);
                }
                if a.amount < crypto_amount {
                    return Err(UniversalOrderError::InsufficientBalance);
                }
                crypto_amount
            },
        }
    } else {
        0
    };
    let order = UniversalOrder {
        creator,
        crypto_mint: mint,
        is_sell_order,
        crypto_amount,
        fiat_amount,
        order_id,
        filled_amount: 0,
        reserved_amount: 0,
        last_action_ts: now,
        daily_fill_count: 0,
        daily_reset_ts: now,
        created_at: now,
        updated_at: now,
    };
    Ok((order, lock_amount))
}

} // verus!
