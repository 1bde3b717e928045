use vstd::prelude::*;
use crate::actions::{CloseStep, Outcome, Payout};
use crate::auto_close::{auto_close_if_needed, spec_auto_close};
use crate::cancel_ticket::spec_refunded_order;
use crate::errors::UniversalOrderError;
use crate::fees::{calculate_fee, fee_computable, spec_fee, spec_net};
use crate::ledger::{op_apply, LedgerOp};
use crate::sign_ticket::spec_settled_order;
use crate::state::{
    crypto_guy, crypto_guy_of, custody_consistent, fiat_guy, fiat_guy_of, reservation_backed,
    ticket_inv, FillTicket, TokenAccountInfo, UniversalOrder,
};

verus! {

/// The first rule a ticket-level override breaks, if any: only the operator
/// may act; the ticket must belong to the order and still be open (nonzero
/// amount); a forced settlement needs the fiat side's destination and the
/// operator's fee destination, each matching the order's asset and its owner,
/// and a computable fee split; a forced refund needs the value-depositing
/// side's destination, matching likewise.
pub open spec fn spec_admin_resolve_ticket_err(
    o: UniversalOrder,
    t: FillTicket,
    order_key: u64,
    admin_signer: u64,
    release_to_fiat_guy: bool,
    fiat_acct: Option<TokenAccountInfo>,
    crypto_acct: Option<TokenAccountInfo>,
    fee_acct: Option<TokenAccountInfo>,
    admin: u64,
) -> Option<UniversalOrderError> {
    if admin_signer != admin {
        Some(UniversalOrderError::Unauthorized)
    } else if t.order != order_key {
        Some(UniversalOrderError::Unauthorized)
    } else if t.amount == 0 {
        Some(UniversalOrderError::InvalidAmount)
    } else if release_to_fiat_guy {
        match fiat_acct {
            None => Some(UniversalOrderError::TokenAccountRequired),
            Some(fa) => if fa.mint != o.crypto_mint {
                Some(UniversalOrderError::InvalidTokenAccount)
            } else if fa.owner != fiat_guy_of(o, t) {
                Some(UniversalOrderError::Unauthorized)
            } else {
                match fee_acct {
                    None => Some(UniversalOrderError::TokenAccountRequired),
                    Some(ea) => if ea.mint != o.crypto_mint {
                        Some(UniversalOrderError::InvalidTokenAccount)
                    } else if ea.owner != admin {
                        Some(UniversalOrderError::Unauthorized)
                    } else if !fee_computable(t.amount) {
                        Some(UniversalOrderError::InvalidAmount)
                    } else {
                        None
                    },
                }
            },
        }
    } else {
        match crypto_acct {
            None => Some(UniversalOrderError::TokenAccountRequired),
            Some(ca) => if ca.mint != o.crypto_mint {
                Some(UniversalOrderError::InvalidTokenAccount)
            } else if ca.owner != crypto_guy_of(o, t) {
                Some(UniversalOrderError::Unauthorized)
            } else {
                None
            },
        }
    }
}

/// Operator override for one open ticket, used to resolve disputes: force a
/// settlement (pay the fiat side net of the fee, exactly as a signed
/// settlement would) or force a refund (return the amount to the
/// value-depositing side, exactly as a cancellation would). Either path
/// updates the order's ledger as its non-admin counterpart does, zeroes and
/// destroys the ticket, and runs reclamation — a settlement closes only a
/// completed, drained order, a refund closes whenever custody is drained. On
/// failure nothing changes.
pub fn admin_resolve_ticket(
    order: &mut UniversalOrder,
    ticket: &mut FillTicket,
    order_key: u64,
    admin_signer: u64,
    release_to_fiat_guy: bool,
    vault_balance: u64,
    fiat_guy_token_account: Option<TokenAccountInfo>,
    crypto_guy_token_account: Option<TokenAccountInfo>,
    admin_fee_account: Option<TokenAccountInfo>,
    admin: u64,
    now: i64,
) -> (r: Result<Outcome, UniversalOrderError>)
    requires
        old(order).inv(),
        ticket_inv(*old(ticket)),
        reservation_backed(*old(order), *old(ticket)),
        custody_consistent(*old(order), vault_balance),
        0 <= now,
    ensures
        final(order).inv(),
        ticket_inv(*final(ticket)),
        match spec_admin_resolve_ticket_err(
            *old(order),
            *old(ticket),
            order_key,
            admin_signer,
            release_to_fiat_guy,
            fiat_guy_token_account,
            crypto_guy_token_account,
            admin_fee_account,
            admin,
        ) {
            Some(e) => r == Err::<Outcome, UniversalOrderError>(e) && *final(order) == *old(order)
                && *final(ticket) == *old(ticket),
            None => {
                let amount = old(ticket).amount;
                &&& r matches Ok(out)
                &&& custody_consistent(*final(order), (vault_balance - amount) as u64)
                &&& if release_to_fiat_guy {
                    &&& *final(order) == spec_settled_order(*old(order), amount, now)
                    &&& final(order).ledger() == op_apply(
                        old(order).ledger(),
                        (LedgerOp::Settle { amount }),
                    )
                    &&& *final(ticket) == (FillTicket {
                        amount: 0,
                        crypto_guy_signed: true,
                        fiat_guy_signed: true,
                        ..*old(ticket)
                    })
                    &&& out.transfers@ =~= seq![
                        (Payout {
                            to: fiat_guy_of(*old(order), *old(ticket)),
                            amount: spec_net(amount) as u64,
                        }),
                        (Payout { to: admin, amount: spec_fee(amount) as u64 }),
                    ]
                    &&& out.closes@ =~= spec_auto_close(
                        *final(order),
                        (vault_balance - amount) as u64,
                        false,
                    ).push(CloseStep::Ticket)
                } else {
                    &&& *final(order) == spec_refunded_order(*old(order), amount, now)
                    &&& final(order).ledger() == op_apply(
                        old(order).ledger(),
                        (LedgerOp::Refund { amount, shrink: old(order).is_sell_order }),
                    )
                    &&& *final(ticket) == (FillTicket {
                        amount: 0,
                        crypto_guy_signed: false,
                        fiat_guy_signed: false,
                        ..*old(ticket)
                    })
                    &&& out.transfers@ =~= seq![
                        (Payout { to: crypto_guy_of(*old(order), *old(ticket)), amount }),
                    ]
                    &&& out.closes@ =~= spec_auto_close(
                        *final(order),
                        (vault_balance - amount) as u64,
                        true,
                    ).push(CloseStep::Ticket)
                }
            },
        },
{
    if admin_signer != admin {
        return Err(UniversalOrderError::Unauthorized);
    }
    if ticket.order != order_key {
        return Err(UniversalOrderError::Unauthorized);
    }
    let amount: u64 = ticket.amount;
    if amount == 0 {
        return Err(UniversalOrderError::InvalidAmount);
    }
    let cg: u64 = crypto_guy(order, ticket);
    let fg: u64 = fiat_guy(order, ticket);
    let mut transfers: Vec<Payout> = Vec::new();
    if release_to_fiat_guy {
        let fa: TokenAccountInfo = match &fiat_guy_token_account {
            None => {
                return Err(UniversalOrderError::TokenAccountRequired);
            },
            Some(a) => *a,
        };
        if fa.mint != order.crypto_mint {
            return Err(UniversalOrderError::InvalidTokenAccount);
        }
        if fa.owner != fg {
            return Err(UniversalOrderError::Unauthorized);
        }
        let ea: TokenAccountInfo = match &admin_fee_account {
            None => {
                return Err(UniversalOrderError::TokenAccountRequired);
            },
            Some(a) => *a,
        };
        if ea.mint != order.crypto_mint {
            return Err(UniversalOrderError::InvalidTokenAccount);
        }
        if ea.owner != admin {
            return Err(UniversalOrderError::Unauthorized);
        }
        let split: (u64, u64) = match calculate_fee(amount) {
            Ok(p) => p,
            Err(e) => {
                return Err(e);
            },
        };
        order.filled_amount = order.filled_amount + amount;
        order.reserved_amount = order.reserved_amount - amount;
        order.updated_at = now;
        ticket.crypto_guy_signed = true;
        ticket.fiat_guy_signed = true;
        ticket.amount = 0;
        transfers.push(Payout { to: fg, amount: split.1 });
        transfers.push(Payout { to: admin, amount: split.0 });
        let balance_after: u64 = vault_balance - amount;
        let mut closes: Vec<CloseStep> = auto_close_if_needed(order, balance_after, false);
        closes.push(CloseStep::Ticket);
        Ok(Outcome { transfers, closes })
    } else {
        let ca: TokenAccountInfo = match &crypto_guy_token_account {
            None => {
                return Err(UniversalOrderError::TokenAccountRequired);
            },
            Some(a) => *a,
        };
        if ca.mint != order.crypto_mint {
            return Err(UniversalOrderError::InvalidTokenAccount);
        }
        if ca.owner != cg {
            return Err(UniversalOrderError::Unauthorized);
        }
        if order.is_sell_order {
            order.crypto_amount = order.crypto_amount - amount;
        }
        order.reserved_amount = order.reserved_amount - amount;
        order.updated_at = now;
        ticket.crypto_guy_signed = false;
        ticket.fiat_guy_signed = false;
        ticket.amount = 0;
        transfers.push(Payout { to: cg, amount });
        let balance_after: u64 = vault_balance - amount;
        let mut closes: Vec<CloseStep> = auto_close_if_needed(order, balance_after, true);
        closes.push(CloseStep::Ticket);
        Ok(Outcome { transfers, closes })
    }
}

} // verus!
