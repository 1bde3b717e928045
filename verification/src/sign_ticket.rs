use vstd::prelude::*;
use crate::actions::{CloseStep, Outcome, Payout};
use crate::auto_close::{auto_close_if_needed, spec_auto_close};
use crate::errors::UniversalOrderError;
use crate::fees::{calculate_fee, fee_computable, spec_fee, spec_net};
use crate::ledger::{op_apply, LedgerOp};
use crate::state::{
    crypto_guy, crypto_guy_of, custody_consistent, fiat_guy, fiat_guy_of, reservation_backed,
    ticket_inv, FillTicket, TokenAccountInfo, UniversalOrder,
};

verus! {

/// Whether the named role may sign this ticket now. The fiat-paying side must
/// attest first; the value-depositing side's signature is accepted only once
/// the fiat side has signed, and each role signs at most once.
pub open spec fn spec_sign_role_err(t: FillTicket, as_crypto: bool) -> Option<UniversalOrderError> {
    if as_crypto {
        if !t.fiat_guy_signed {
            Some(UniversalOrderError::SignatureRequired)
        } else if t.crypto_guy_signed {
            Some(UniversalOrderError::RaceCondition)
        } else {
            None
        }
    } else {
        if t.fiat_guy_signed {
            Some(UniversalOrderError::RaceCondition)
        } else {
            None
        }
    }
}

/// The ticket with the named role's signature placed.
pub open spec fn spec_sign_apply(t: FillTicket, as_crypto: bool) -> FillTicket {
    if as_crypto {
        FillTicket { crypto_guy_signed: true, ..t }
    } else {
        FillTicket { fiat_guy_signed: true, ..t }
    }
}

/// Both roles have attested: the ticket settles.
pub open spec fn spec_both_signed(t: FillTicket) -> bool {
    t.crypto_guy_signed && t.fiat_guy_signed
}

/// The first rule a signature breaks, if any: the ticket must belong to the
/// order; the signer must be one of the two derived roles; the signing-order
/// rule must admit the signature; and when this signature completes the pair,
/// the two destinations (the fiat side's account and the operator's fee
/// account) must be present and match the order's asset and their owners, and
/// the fee split must be computable.
pub open spec fn spec_sign_ticket_err(
    o: UniversalOrder,
    t: FillTicket,
    order_key: u64,
    signer: u64,
    fiat_acct: Option<TokenAccountInfo>,
    fee_acct: Option<TokenAccountInfo>,
    admin: u64,
) -> Option<UniversalOrderError> {
    let cg = crypto_guy_of(o, t);
    let fg = fiat_guy_of(o, t);
    if t.order != order_key {
        Some(UniversalOrderError::Unauthorized)
    } else if signer != cg && signer != fg {
        Some(UniversalOrderError::Unauthorized)
    } else {
        let as_crypto = signer == cg;
        match spec_sign_role_err(t, as_crypto) {
            Some(e) => Some(e),
            None => if !spec_both_signed(spec_sign_apply(t, as_crypto)) {
                None
            } else {
                match fiat_acct {
                    None => Some(UniversalOrderError::TokenAccountRequired),
                    Some(fa) => if fa.mint != o.crypto_mint {
                        Some(UniversalOrderError::InvalidTokenAccount)
                    } else if fa.owner != fg {
                        Some(UniversalOrderError::Unauthorized)
                    } else {
                        match fee_acct {
                            None => Some(UniversalOrderError::TokenAccountRequired),
                            Some(ea) => if ea.mint != o.crypto_mint {
                                Some(UniversalOrderError::InvalidTokenAccount)
                            } else if ea.owner != admin {
                                Some(UniversalOrderError::Unauthorized)
                            } else if !fee_computable(t.amount) {
                                Some(UniversalOrderError::InvalidAmount)
                            } else {
                                None
                            },
                        }
                    },
                }
            },
        }
    }
}

/// The order after a settlement of `amount`: it moves from reserved to settled.
pub open spec fn spec_settled_order(o: UniversalOrder, amount: u64, now: i64) -> UniversalOrder {
    UniversalOrder {
        filled_amount: (o.filled_amount + amount) as u64,
        reserved_amount: (o.reserved_amount - amount) as u64,
        updated_at: now,
        ..o
    }
}

/// Place `signer`'s signature on `ticket`. The first qualifying signature
/// (the fiat-paying side's) leaves the ticket half-signed and moves nothing.
/// The second (the value-depositing side's, accepted only after the first)
/// settles the ticket atomically: the net part of its amount goes to the fiat
/// side, the fee to the operator `admin`, the order's ledger moves the amount
/// from reserved to settled, the ticket is zeroed and destroyed, and
/// reclamation closes custody and order once the order is complete and
/// drained. On failure nothing changes.
pub fn sign_ticket(
    order: &mut UniversalOrder,
    ticket: &mut FillTicket,
    order_key: u64,
    signer: u64,
    vault_balance: u64,
    fiat_guy_token_account: Option<TokenAccountInfo>,
    admin_fee_account: Option<TokenAccountInfo>,
    admin: u64,
    now: i64,
) -> (r: Result<Outcome, UniversalOrderError>)
    requires
        old(order).inv(),
        ticket_inv(*old(ticket)),
        reservation_backed(*old(order), *old(ticket)),
        custody_consistent(*old(order), vault_balance),
        0 <= now,
    ensures
        final(order).inv(),
        ticket_inv(*final(ticket)),
        match spec_sign_ticket_err(
            *old(order),
            *old(ticket),
            order_key,
            signer,
            fiat_guy_token_account,
            admin_fee_account,
            admin,
        ) {
            Some(e) => r == Err::<Outcome, UniversalOrderError>(e) && *final(order) == *old(order)
                && *final(ticket) == *old(ticket),
            None => {
                let as_crypto = signer == crypto_guy_of(*old(order), *old(ticket));
                let amount = old(ticket).amount;
                &&& r matches Ok(out)
                &&& if spec_both_signed(spec_sign_apply(*old(ticket), as_crypto)) {
                    &&& *final(order) == spec_settled_order(*old(order), amount, now)
                    &&& final(order).ledger() == op_apply(
                        old(order).ledger(),
                        (LedgerOp::Settle { amount }),
                    )
                    &&& *final(ticket) == (FillTicket {
                        amount: 0,
                        crypto_guy_signed: true,
                        fiat_guy_signed: true,
                        ..*old(ticket)
                    })
                    &&& out.transfers@ =~= seq![
                        (Payout {
                            to: fiat_guy_of(*old(order), *old(ticket)),
                            amount: spec_net(amount) as u64,
                        }),
                        (Payout { to: admin, amount: spec_fee(amount) as u64 }),
                    ]
                    &&& out.closes@ =~= spec_auto_close(
                        *final(order),
                        (vault_balance - amount) as u64,
                        false,
                    ).push(CloseStep::Ticket)
                    &&& custody_consistent(*final(order), (vault_balance - amount) as u64)
                } else {
                    &&& *final(order) == (UniversalOrder { updated_at: now, ..*old(order) })
                    &&& *final(ticket) == spec_sign_apply(*old(ticket), as_crypto)
                    &&& out.transfers@.len() == 0
                    &&& out.closes@.len() == 0
                    &&& custody_consistent(*final(order), vault_balance)
                }
            },
        },
{
    let cg: u64 = crypto_guy(order, ticket);
    let fg: u64 = fiat_guy(order, ticket);
    if ticket.order != order_key {
        return Err(UniversalOrderError::Unauthorized);
    }
    if signer != cg && signer != fg {
        return Err(UniversalOrderError::Unauthorized);
    }
    let as_crypto: bool = signer == cg;
    if as_crypto {
        if !ticket.fiat_guy_signed {
            return Err(UniversalOrderError::SignatureRequired);
        }
        if ticket.crypto_guy_signed {
            return Err(UniversalOrderError::RaceCondition);
        }
    } else {
        if ticket.fiat_guy_signed {
            return Err(UniversalOrderError::RaceCondition);
        }
    }
    if !as_crypto {
        // The paying side signs first; the depositing side has not signed yet,
        // so the ticket stays half-signed and no value moves.
        ticket.fiat_guy_signed = true;
        order.updated_at = now;
        return Ok(Outcome { transfers: Vec::new(), closes: Vec::new() });
    }
    // The depositing side completes the pair: settle this ticket now.
    let amount: u64 = ticket.amount;
    let fa: TokenAccountInfo = match &fiat_guy_token_account {
        None => {
            return Err(UniversalOrderError::TokenAccountRequired);
        },
        Some(a) => *a,
    };
    if fa.mint != order.crypto_mint {
        return Err(UniversalOrderError::InvalidTokenAccount);
    }
    if fa.owner != fg {
        return Err(UniversalOrderError::Unauthorized);
    }
    let ea: TokenAccountInfo = match &admin_fee_account {
        None => {
            return Err(UniversalOrderError::TokenAccountRequired);
        },
        Some(a) => *a,
    };
    if ea.mint != order.crypto_mint {
        return Err(UniversalOrderError::InvalidTokenAccount);
    }
    if ea.owner != admin {
        return Err(UniversalOrderError::Unauthorized);
    }
    let split: (u64, u64) = match calculate_fee(amount) {
        Ok(p) => p,
        Err(e) => {
            return Err(e);
        },
    };
    ticket.crypto_guy_signed = true;
    ticket.amount = 0;
    order.filled_amount = order.filled_amount + amount;
    order.reserved_amount = order.reserved_amount - amount;
    order.updated_at = now;
    let mut transfers: Vec<Payout> = Vec::new();
    transfers.push(Payout { to: fg, amount: split.1 });
    transfers.push(Payout { to: admin, amount: split.0 });
    let balance_after: u64 = vault_balance - amount;
    let mut closes: Vec<CloseStep> = auto_close_if_needed(order, balance_after, false);
    closes.push(CloseStep::Ticket);
    Ok(Outcome { transfers, closes })
}

} // verus!
