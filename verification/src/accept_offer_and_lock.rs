use vstd::prelude::*;
use crate::errors::UniversalOrderError;
use crate::state::{custody_consistent, ticket_inv, FillTicket, TokenAccountInfo, UniversalOrder};

verus! {

/// The fiat-paying party of the order being opened: the named counterparty on
/// a sell order, the creator on a buy order.
pub open spec fn spec_actual_fiat_guy(is_sell_order: bool, creator: u64, fiat_party: u64) -> u64 {
    if is_sell_order {
        fiat_party
    } else {
        creator
    }
}

/// The first rule an accept-and-lock breaks, if any: the amounts and the
/// ticket identifier must be nonzero; the locker (always the value-depositing
/// side) may not be the fiat side; on a sell order the locker must be the
/// creator, on a buy order the locker must not be; and the locker's account
/// must hold the order's asset, belong to the locker, and cover the full
/// amount being locked.
pub open spec fn spec_accept_offer_err(
    crypto_amount: u64,
    fiat_amount: u64,
    ticket_id: u64,
    is_sell_order: bool,
    creator: u64,
    fiat_party: u64,
    locker: u64,
    mint: u64,
    lock_acct: TokenAccountInfo,
) -> Option<UniversalOrderError> {
    let actual_fiat = spec_actual_fiat_guy(is_sell_order, creator, fiat_party);
    if crypto_amount == 0 || fiat_amount == 0 || ticket_id == 0 {
        Some(UniversalOrderError::InvalidAmount)
    } else if locker == actual_fiat {
        Some(UniversalOrderError::Unauthorized)
    } else if is_sell_order && locker != creator {
        Some(UniversalOrderError::Unauthorized)
    } else if !is_sell_order && locker == creator {
        Some(UniversalOrderError::Unauthorized)
    } else if lock_acct.mint != mint {
        Some(UniversalOrderError::InvalidTokenAccount)
    } else if lock_acct.owner != locker {
        Some(UniversalOrderError::Unauthorized)
    } else if lock_acct.amount < crypto_amount {
        Some(UniversalOrderError::InsufficientBalance)
    } else {
        None
    }
}

/// Open an order together with its first ticket, which reserves the whole
/// committed amount, and lock that amount into custody from the locker's
/// account. The locker is the value-depositing side: the creator on a sell
/// order, the accepting counterparty on a buy order. `order_key` is the
/// platform-derived address of the new order record. A granted result is the
/// new order, its first ticket, and the amount the platform must move from
/// the locker's account into custody. On failure nothing is created.
pub fn accept_offer_and_lock(
    order_key: u64,
    order_id: u64,
    ticket_id: u64,
    crypto_amount: u64,
    fiat_amount: u64,
    is_sell_order: bool,
    creator: u64,
    fiat_party: u64,
    locker: u64,
    mint: u64,
    locker_token_account: TokenAccountInfo,
    now: i64,
) -> (r: Result<(UniversalOrder, FillTicket, u64), UniversalOrderError>)
    requires
        0 <= now,
    ensures
        match spec_accept_offer_err(
            crypto_amount,
            fiat_amount,
            ticket_id,
            is_sell_order,
            creator,
            fiat_party,
            locker,
            mint,
            locker_token_account,
        ) {
            Some(e) => r == Err::<(UniversalOrder, FillTicket, u64), UniversalOrderError>(e),
            None => {
                &&& r matches Ok(p)
                &&& p.0 == (UniversalOrder {
                    creator,
                    crypto_mint: mint,
                    is_sell_order,
                    crypto_amount,
                    fiat_amount,
                    order_id,
                    filled_amount: 0,
                    reserved_amount: crypto_amount,
                    last_action_ts: 0,
                    daily_fill_count: 0,
                    daily_reset_ts: 0,
                    created_at: now,
                    updated_at: now,
                })
                &&& p.1 == (FillTicket {
                    order: order_key,
                    acceptor: if is_sell_order {
                        fiat_party
                    } else {
                        locker
                    },
                    amount: crypto_amount,
                    crypto_guy_signed: false,
                    fiat_guy_signed: false,
                    ticket_id,
                    created_at: now,
                })
                &&& p.2 == crypto_amount
                &&& p.0.inv()
                &&& ticket_inv(p.1)
                &&& custody_consistent(p.0, p.2)
            },
        },
{
    let actual_fiat_guy: u64 = if is_sell_order {
        fiat_party
    } else {
        creator
    };
    if crypto_amount == 0 || fiat_amount == 0 || ticket_id == 0 {
        return Err(UniversalOrderError::InvalidAmount);
    }
    if locker == actual_fiat_guy {
        return Err(UniversalOrderError::Unauthorized);
    }
    if is_sell_order && locker != creator {
        return Err(UniversalOrderError::Unauthorized);
    }
    if !is_sell_order && locker == creator {
        return Err(UniversalOrderError::Unauthorized);
    }
    if locker_token_account.mint != mint {
        return Err(UniversalOrderError::InvalidTokenAccount);
    }
    if locker_token_account.owner != locker {
        return Err(UniversalOrderError::Unauthorized);
    }
    if locker_token_account.amount < crypto_amount {
        return Err(UniversalOrderError::InsufficientBalance);
    }
    let order = UniversalOrder {
        creator,
        crypto_mint: mint,
        is_sell_order,
        crypto_amount,
        fiat_amount,
        order_id,
        filled_amount: 0,
        reserved_amount: crypto_amount,
        last_action_ts: 0,
        daily_fill_count: 0,
        daily_reset_ts: 0,
        created_at: now,
        updated_at: now,
    };
    let ticket = FillTicket {
        order: order_key,
        acceptor: if is_sell_order {
            actual_fiat_guy
        } else {
            locker
        },
        amount: crypto_amount,
        crypto_guy_signed: false,
        fiat_guy_signed: false,
        ticket_id,
        created_at: now,
    };
    Ok((order, ticket, crypto_amount))
}

} // verus!
