use vstd::prelude::*;
use crate::accept_ticket::spec_accept_ticket_err;
use crate::admin_resolve_ticket::spec_admin_resolve_ticket_err;
use crate::cancel_ticket::spec_cancel_ticket_err;
use crate::errors::UniversalOrderError;
use crate::ledger::{op_allowed, LedgerOp};
use crate::sign_ticket::{
    spec_both_signed, spec_sign_apply, spec_sign_role_err, spec_sign_ticket_err,
};
use crate::state::{FillTicket, TokenAccountInfo, UniversalOrder};

verus! {

/// Law (signature ordering): on a fresh ticket the value-depositing side
/// cannot sign first — that attempt fails with `SignatureRequired` — while
/// the fiat-paying side can, without settling anything; and once the fiat
/// side has signed, the depositing side's signature is accepted and completes
/// the pair, which is what settles the ticket.
pub proof fn lemma_fiat_signs_first(t: FillTicket)
    requires
        !t.crypto_guy_signed,
        !t.fiat_guy_signed,
    ensures
        spec_sign_role_err(t, true) == Some(UniversalOrderError::SignatureRequired),
        spec_sign_role_err(t, false) is None,
        !spec_both_signed(spec_sign_apply(t, false)),
        spec_sign_role_err(spec_sign_apply(t, false), true) is None,
        spec_both_signed(spec_sign_apply(spec_sign_apply(t, false), true)),
{
}

/// Law (idempotent terminal state): a ticket in its settled shape — both
/// roles signed, amount zeroed, as every settlement leaves it just before the
/// record is destroyed — is refused by every further operation: either role's
/// signature, the fiat side's cancellation, and the operator's override all
/// fail, whoever calls and whatever accounts they supply.
pub proof fn lemma_terminal_ticket_rejected(
    o: UniversalOrder,
    t: FillTicket,
    order_key: u64,
    signer: u64,
    canceller: u64,
    admin_signer: u64,
    release_to_fiat_guy: bool,
    fiat_acct: Option<TokenAccountInfo>,
    crypto_acct: Option<TokenAccountInfo>,
    fee_acct: Option<TokenAccountInfo>,
    admin: u64,
)
    requires
        t.crypto_guy_signed,
        t.fiat_guy_signed,
        t.amount == 0,
    ensures
        spec_sign_ticket_err(o, t, order_key, signer, fiat_acct, fee_acct, admin) is Some,
        spec_cancel_ticket_err(o, t, order_key, canceller, crypto_acct) is Some,
        spec_admin_resolve_ticket_err(
            o,
            t,
            order_key,
            admin_signer,
            release_to_fiat_guy,
            fiat_acct,
            crypto_acct,
            fee_acct,
            admin,
        ) is Some,
{
}

/// Sum of the amounts of a collection of tickets.
pub open spec fn tickets_total(s: Seq<FillTicket>) -> int
    decreases s.len(),
{
    if s.len() == 0 {
        0
    } else {
        tickets_total(s.drop_last()) + s.last().amount
    }
}

/// An order's reserved total is exactly the sum of its open tickets' amounts.
pub open spec fn reservation_matches(o: UniversalOrder, open_tickets: Seq<FillTicket>) -> bool {
    o.reserved_amount == tickets_total(open_tickets)
}

proof fn lemma_tickets_total_nonneg(s: Seq<FillTicket>)
    ensures
        0 <= tickets_total(s),
    decreases s.len(),
{
    if s.len() > 0 {
        lemma_tickets_total_nonneg(s.drop_last());
    }
}

proof fn lemma_tickets_total_remove(s: Seq<FillTicket>, i: int)
    requires
        0 <= i < s.len(),
    ensures
        tickets_total(s.remove(i)) == tickets_total(s) - s[i].amount,
    decreases s.len(),
{
    if i == s.len() - 1 {
        assert(s.remove(i) =~= s.drop_last());
    } else {
        assert(s.remove(i).drop_last() =~= s.drop_last().remove(i));
        lemma_tickets_total_remove(s.drop_last(), i);
    }
}

/// Law (reservation accounting, opening): when a new ticket's amount joins
/// the reserved total, the reserved total again equals the sum over the now
/// larger collection of open tickets.
pub proof fn lemma_open_ticket_keeps_reservation_total(
    o: UniversalOrder,
    o_after: UniversalOrder,
    open_tickets: Seq<FillTicket>,
    t: FillTicket,
)
    requires
        reservation_matches(o, open_tickets),
        o_after.reserved_amount == o.reserved_amount + t.amount,
    ensures
        reservation_matches(o_after, open_tickets.push(t)),
{
    assert(open_tickets.push(t).drop_last() =~= open_tickets);
}

/// Law (reservation accounting, resolving): when one open ticket's amount
/// leaves the reserved total — by settlement or by refund — the reserved
/// total again equals the sum over the remaining open tickets.
pub proof fn lemma_resolve_ticket_keeps_reservation_total(
    o: UniversalOrder,
    o_after: UniversalOrder,
    open_tickets: Seq<FillTicket>,
    i: int,
)
    requires
        reservation_matches(o, open_tickets),
        0 <= i < open_tickets.len(),
        o_after.reserved_amount == o.reserved_amount - open_tickets[i].amount,
    ensures
        reservation_matches(o_after, open_tickets.remove(i)),
{
    lemma_tickets_total_remove(open_tickets, i);
}

/// Law (reservation backing): while the reserved total equals the sum over
/// the open tickets, each single open ticket's amount is at most the reserved
/// total — the backing every resolution relies on.
pub proof fn lemma_each_open_ticket_backed(o: UniversalOrder, open_tickets: Seq<FillTicket>, i: int)
    requires
        reservation_matches(o, open_tickets),
        0 <= i < open_tickets.len(),
    ensures
        open_tickets[i].amount <= o.reserved_amount,
{
    lemma_tickets_total_remove(open_tickets, i);
    lemma_tickets_total_nonneg(open_tickets.remove(i));
}

/// Law (capacity): a ticket creation that passes every check is exactly a
/// permitted reservation step of the order's ledger, so the conservation and
/// no-double-reservation laws of the ledger apply to it.
pub proof fn lemma_granted_creation_is_permitted_reserve(
    o: UniversalOrder,
    ticket_id: u64,
    amount: u64,
    acceptor: u64,
    lock_acct: Option<TokenAccountInfo>,
    now: i64,
)
    requires
        o.inv(),
        spec_accept_ticket_err(o, ticket_id, amount, acceptor, lock_acct, now) is None,
    ensures
        op_allowed(o.ledger(), (LedgerOp::Reserve { amount })),
{
}

} // verus!
