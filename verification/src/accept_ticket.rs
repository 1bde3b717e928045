use vstd::prelude::*;
use crate::constants::{FILL_COOLDOWN_SECS, MAX_FILLS_PER_DAY, SECONDS_PER_DAY};
use crate::errors::UniversalOrderError;
use crate::ledger::{op_apply, LedgerOp};
use crate::state::{custody_consistent, FillTicket, TokenAccountInfo, UniversalOrder};

verus! {

/// Whether a full day window has passed since the window last started, so the
/// daily counter is reset before it is checked.
pub open spec fn rate_day_elapsed(o: UniversalOrder, now: i64) -> bool {
    now - o.daily_reset_ts >= SECONDS_PER_DAY
}

/// The daily counter the rate limit is checked against at time `now`.
pub open spec fn rate_effective_count(o: UniversalOrder, now: i64) -> u16 {
    if rate_day_elapsed(o, now) {
        0u16
    } else {
        o.daily_fill_count
    }
}

/// The first rule a ticket creation breaks, if any, checked in this order:
/// the creator may not fill their own order; the identifier and the amount
/// must be nonzero; the per-order cooldown and the daily quota must leave
/// room; the amount must not exceed what is left to fill at all, nor what is
/// left once open tickets' reservations are counted (losing that re-check is
/// the race between parallel creations); and on a buy order the acceptor is
/// the depositing side and must supply a matching, sufficiently funded
/// account to lock from.
pub open spec fn spec_accept_ticket_err(
    o: UniversalOrder,
    ticket_id: u64,
    amount: u64,
    acceptor: u64,
    lock_acct: Option<TokenAccountInfo>,
    now: i64,
) -> Option<UniversalOrderError> {
    if acceptor == o.creator {
        Some(UniversalOrderError::Unauthorized)
    } else if ticket_id == 0 || amount == 0 {
        Some(UniversalOrderError::InvalidAmount)
    } else if now - o.last_action_ts < FILL_COOLDOWN_SECS {
        Some(UniversalOrderError::ActionTooFrequent)
    } else if rate_effective_count(o, now) >= MAX_FILLS_PER_DAY {
        Some(UniversalOrderError::TooManyFillsPerDay)
    } else if amount > o.spec_remaining() {
        Some(UniversalOrderError::InvalidAmount)
    } else if amount > o.spec_available() {
        Some(UniversalOrderError::RaceCondition)
    } else if !o.is_sell_order {
        match lock_acct {
            None => Some(UniversalOrderError::TokenAccountRequired),
            Some(a) => if a.mint != o.crypto_mint {
                Some(UniversalOrderError::InvalidTokenAccount)
            } else if a.owner != acceptor {
                Some(UniversalOrderError::Unauthorized)
            } else if a.amount < amount {
                Some(UniversalOrderError::InsufficientBalance)
            } else {
                None
            },
        }
    } else {
        None
    }
}

/// The order after a granted ticket creation: the amount joins the reserved
/// total and the rate-limit window advances.
pub open spec fn spec_accept_ticket_order(o: UniversalOrder, amount: u64, now: i64) -> UniversalOrder {
    UniversalOrder {
        reserved_amount: (o.reserved_amount + amount) as u64,
        last_action_ts: now,
        daily_fill_count: (rate_effective_count(o, now) + 1) as u16,
        daily_reset_ts: if rate_day_elapsed(o, now) {
            now
        } else {
            o.daily_reset_ts
        },
        updated_at: now,
        ..o
    }
}

/// A fresh, unsigned ticket for the reserved slice.
pub open spec fn spec_new_ticket(
    order_key: u64,
    acceptor: u64,
    amount: u64,
    ticket_id: u64,
    now: i64,
) -> FillTicket {
    FillTicket {
        order: order_key,
        acceptor,
        amount,
        crypto_guy_signed: false,
        fiat_guy_signed: false,
        ticket_id,
        created_at: now,
    }
}

/// Open a ticket against `order`, reserving `amount` of its available
/// capacity for `acceptor`, the party opposite the creator. `order_key` is
/// the platform-derived address of the order record, stamped into the ticket.
///
/// On a buy order the acceptor is the value-depositing side and locks the
/// amount at creation: the second component of a granted result is what the
/// platform must move from the acceptor's supplied account into custody
/// (zero on a sell order, whose custody was funded when the order opened).
/// On failure nothing changes.
pub fn accept_ticket(
    order: &mut UniversalOrder,
    order_key: u64,
    ticket_id: u64,
    amount: u64,
    acceptor: u64,
    acceptor_token_account: Option<TokenAccountInfo>,
    now: i64,
) -> (r: Result<(FillTicket, u64), UniversalOrderError>)
    requires
        old(order).inv(),
        0 <= now,
    ensures
        final(order).inv(),
        match spec_accept_ticket_err(
            *old(order),
            ticket_id,
            amount,
            acceptor,
            acceptor_token_account,
            now,
        ) {
            Some(e) => r == Err::<(FillTicket, u64), UniversalOrderError>(e) && *final(order)
                == *old(order),
            None => {
                &&& r matches Ok(p)
                &&& p.0 == spec_new_ticket(order_key, acceptor, amount, ticket_id, now)
                &&& p.1 == if old(order).is_sell_order {
                    0u64
                } else {
                    amount
                }
                &&& *final(order) == spec_accept_ticket_order(*old(order), amount, now)
                &&& final(order).ledger() == op_apply(
                    old(order).ledger(),
                    (LedgerOp::Reserve { amount }),
                )
            },
        },
        forall|balance: u64|
            (#[trigger] custody_consistent(*old(order), balance) && r is Ok)
                ==> custody_consistent(*final(order), (balance + r->Ok_0.1) as u64),
{
    if acceptor == order.creator {
        return Err(UniversalOrderError::Unauthorized);
    }
    if ticket_id == 0 || amount == 0 {
        return Err(UniversalOrderError::InvalidAmount);
    }
    if now - order.last_action_ts < FILL_COOLDOWN_SECS {
        return Err(UniversalOrderError::ActionTooFrequent);
    }
    let day_elapsed: bool = now - order.daily_reset_ts >= SECONDS_PER_DAY;
    let effective_count: u16 = if day_elapsed {
        0
    } else {
        order.daily_fill_count
    };
    if effective_count >= MAX_FILLS_PER_DAY {
        return Err(UniversalOrderError::TooManyFillsPerDay);
    }
    if amount > order.remaining_amount() {
        return Err(UniversalOrderError::InvalidAmount);
    }
    if amount > order.available_amount() {
        return Err(UniversalOrderError::RaceCondition);
    }
    let lock_amount: u64 = if order.is_sell_order {
        0
    } else {
        match &acceptor_token_account {
            None => {
                return Err(UniversalOrderError::TokenAccountRequired);
            },
            Some(a) => {
                if a.mint != order.crypto_mint {
                    return Err(UniversalOrderError::InvalidTokenAccount);
                }
                if a.owner != acceptor {
                    return Err(UniversalOrderError::Unauthorized);
                }
                if a.amount < amount {
                    return Err(UniversalOrderError::InsufficientBalance);
                }
                amount
            },
        }
    };
    order.reserved_amount = order.reserved_amount + amount;
    order.last_action_ts = now;
    order.daily_fill_count = effective_count + 1;
    if day_elapsed {
        order.daily_reset_ts = now;
    }
    order.updated_at = now;
    let ticket = FillTicket {
        order: order_key,
        acceptor,
        amount,
        crypto_guy_signed: false,
        fiat_guy_signed: false,
        ticket_id,
        created_at: now,
    };
    Ok((ticket, lock_amount))
}

} // verus!
