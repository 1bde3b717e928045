use vstd::prelude::*;
use crate::actions::{CloseStep, Outcome, Payout};
use crate::auto_close::{auto_close_if_needed, spec_auto_close};
use crate::errors::UniversalOrderError;
use crate::ledger::{op_apply, LedgerOp};
use crate::state::{
    crypto_guy, crypto_guy_of, custody_consistent, fiat_guy, fiat_guy_of, reservation_backed,
    ticket_inv, FillTicket, TokenAccountInfo, UniversalOrder,
};

verus! {

/// The first rule a ticket cancellation breaks, if any: the ticket must
/// belong to the order; only the fiat-paying role may cancel, and only
/// strictly before that role has signed; and the refund destination must be
/// present and be the value-depositing side's account for the order's asset.
pub open spec fn spec_cancel_ticket_err(
    o: UniversalOrder,
    t: FillTicket,
    order_key: u64,
    canceller: u64,
    crypto_acct: Option<TokenAccountInfo>,
) -> Option<UniversalOrderError> {
    if t.order != order_key {
        Some(UniversalOrderError::Unauthorized)
    } else if canceller != fiat_guy_of(o, t) {
        Some(UniversalOrderError::Unauthorized)
    } else if t.fiat_guy_signed {
        Some(UniversalOrderError::CannotCancel)
    } else {
        match crypto_acct {
            None => Some(UniversalOrderError::TokenAccountRequired),
            Some(a) => if a.mint != o.crypto_mint {
                Some(UniversalOrderError::InvalidTokenAccount)
            } else if a.owner != crypto_guy_of(o, t) {
                Some(UniversalOrderError::Unauthorized)
            } else {
                None
            },
        }
    }
}

/// The order after a ticket refund of `amount`: the reservation is released,
/// and on a sell order the committed size burns by the refunded amount, since
/// that value went back to the depositor and is no longer in custody.
pub open spec fn spec_refunded_order(o: UniversalOrder, amount: u64, now: i64) -> UniversalOrder {
    UniversalOrder {
        crypto_amount: if o.is_sell_order {
            (o.crypto_amount - amount) as u64
        } else {
            o.crypto_amount
        },
        reserved_amount: (o.reserved_amount - amount) as u64,
        updated_at: now,
        ..o
    }
}

/// Cancel an open ticket. Only the fiat-paying side may cancel, and only
/// before it has signed; the full ticket amount is refunded from custody to
/// the value-depositing side, the reservation is released, the ticket is
/// zeroed and destroyed, and reclamation always closes the custody account
/// and the order once custody is drained (a cancellation ends the
/// negotiation). On failure nothing changes.
pub fn cancel_ticket(
    order: &mut UniversalOrder,
    ticket: &mut FillTicket,
    order_key: u64,
    canceller: u64,
    vault_balance: u64,
    crypto_guy_token_account: Option<TokenAccountInfo>,
    now: i64,
) -> (r: Result<Outcome, UniversalOrderError>)
    requires
        old(order).inv(),
        ticket_inv(*old(ticket)),
        reservation_backed(*old(order), *old(ticket)),
        custody_consistent(*old(order), vault_balance),
        0 <= now,
    ensures
        final(order).inv(),
        ticket_inv(*final(ticket)),
        match spec_cancel_ticket_err(
            *old(order),
            *old(ticket),
            order_key,
            canceller,
            crypto_guy_token_account,
        ) {
            Some(e) => r == Err::<Outcome, UniversalOrderError>(e) && *final(order) == *old(order)
                && *final(ticket) == *old(ticket),
            None => {
                let amount = old(ticket).amount;
                &&& r matches Ok(out)
                &&& *final(order) == spec_refunded_order(*old(order), amount, now)
                &&& final(order).ledger() == op_apply(
                    old(order).ledger(),
                    (LedgerOp::Refund { amount, shrink: old(order).is_sell_order }),
                )
                &&& *final(ticket) == (FillTicket { amount: 0, ..*old(ticket) })
                &&& out.transfers@ =~= seq![
                    (Payout { to: crypto_guy_of(*old(order), *old(ticket)), amount }),
                ]
                &&& out.closes@ =~= spec_auto_close(
                    *final(order),
                    (vault_balance - amount) as u64,
                    true,
                ).push(CloseStep::Ticket)
                &&& custody_consistent(*final(order), (vault_balance - amount) as u64)
            },
        },
{
    let cg: u64 = crypto_guy(order, ticket);
    let fg: u64 = fiat_guy(order, ticket);
    if ticket.order != order_key {
        return Err(UniversalOrderError::Unauthorized);
    }
    if canceller != fg {
        return Err(UniversalOrderError::Unauthorized);
    }
    if ticket.fiat_guy_signed {
        return Err(UniversalOrderError::CannotCancel);
    }
    let ca: TokenAccountInfo = match &crypto_guy_token_account {
        None => {
            return Err(UniversalOrderError::TokenAccountRequired);
        },
        Some(a) => *a,
    };
    if ca.mint != order.crypto_mint {
        return Err(UniversalOrderError::InvalidTokenAccount);
    }
    if ca.owner != cg {
        return Err(UniversalOrderError::Unauthorized);
    }
    let amount: u64 = ticket.amount;
    if order.is_sell_order {
        order.crypto_amount = order.crypto_amount - amount;
    }
    order.reserved_amount = order.reserved_amount - amount;
    order.updated_at = now;
    ticket.amount = 0;
    let mut transfers: Vec<Payout> = Vec::new();
    transfers.push(Payout { to: cg, amount });
    let balance_after: u64 = vault_balance - amount;
    let mut closes: Vec<CloseStep> = auto_close_if_needed(order, balance_after, true);
    closes.push(CloseStep::Ticket);
    Ok(Outcome { transfers, closes })
}

} // verus!
