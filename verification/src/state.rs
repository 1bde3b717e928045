use vstd::prelude::*;
use crate::constants::MAX_FILLS_PER_DAY;
use crate::ledger::LedgerView;

verus! {

/// One party's trade intent, together with its reservation/settlement ledger.
///
/// Identities (parties, assets) are opaque ids handed in by the platform; the
/// engine only ever compares them for equality. `crypto_amount` is the total
/// committed size, `filled_amount` the part already settled, and
/// `reserved_amount` the part currently held by open tickets.
#[derive(Clone, Copy, PartialEq, Eq, Structural, Debug)]
pub struct UniversalOrder {
    /// Identity that opened the order.
    pub creator: u64,
    /// The fungible asset being traded.
    pub crypto_mint: u64,
    /// True: the creator deposits value and the counterparty pays fiat.
    /// False: the creator pays fiat and each ticket's counterparty deposits.
    pub is_sell_order: bool,
    /// Total size the creator committed to trade.
    pub crypto_amount: u64,
    /// Fiat counter-amount, kept for reference only.
    pub fiat_amount: u64,
    /// Caller-chosen order identifier, unique per (creator, asset).
    pub order_id: u64,
    /// Cumulative amount released through completed settlements.
    pub filled_amount: u64,
    /// Sum of the amounts of all currently open tickets.
    pub reserved_amount: u64,
    /// Rate limiting: time of the last ticket creation.
    pub last_action_ts: i64,
    /// Rate limiting: tickets created in the current day window.
    pub daily_fill_count: u16,
    /// Rate limiting: start of the current day window.
    pub daily_reset_ts: i64,
    /// Creation time.
    pub created_at: i64,
    /// Time of the last committed mutation.
    pub updated_at: i64,
}

impl UniversalOrder {
    /// Capacity not yet settled: `crypto_amount - filled_amount`, clamped at zero.
    pub open spec fn spec_remaining(self) -> u64 {
        if self.filled_amount <= self.crypto_amount {
            (self.crypto_amount - self.filled_amount) as u64
        } else {
            0u64
        }
    }

    /// Capacity not yet settled nor reserved by open tickets, clamped at zero.
    pub open spec fn spec_available(self) -> u64 {
        if self.reserved_amount <= self.spec_remaining() {
            (self.spec_remaining() - self.reserved_amount) as u64
        } else {
            0u64
        }
    }

    /// Well-formedness, preserved by every operation: the settled and reserved
    /// parts never exceed the committed size, timestamps are non-negative, and
    /// the daily counter never exceeds its ceiling.
    pub open spec fn inv(self) -> bool {
        &&& self.filled_amount + self.reserved_amount <= self.crypto_amount
        &&& 0 <= self.last_action_ts
        &&& 0 <= self.daily_reset_ts
        &&& 0 <= self.created_at
        &&& 0 <= self.updated_at
        &&& self.daily_fill_count <= MAX_FILLS_PER_DAY
    }

    /// The accounting triple this order carries.
    pub open spec fn ledger(self) -> LedgerView {
        LedgerView {
            committed: self.crypto_amount,
            settled: self.filled_amount,
            reserved: self.reserved_amount,
        }
    }

    /// Amount that can still be filled.
    pub fn remaining_amount(&self) -> (r: u64)
        ensures
            r == self.spec_remaining(),
    {
        if self.filled_amount <= self.crypto_amount {
            self.crypto_amount - self.filled_amount
        } else {
            0
        }
    }

    /// Amount still open for new tickets to reserve.
    pub fn available_amount(&self) -> (r: u64)
        ensures
            r == self.spec_available(),
    {
        let remaining = self.remaining_amount();
        if self.reserved_amount <= remaining {
            remaining - self.reserved_amount
        } else {
            0
        }
    }
}

/// One negotiated slice of an order's capacity, resolved independently by the
/// two derived roles' signatures.
#[derive(Clone, Copy, PartialEq, Eq, Structural, Debug)]
pub struct FillTicket {
    /// Address of the parent order record.
    pub order: u64,
    /// The party opposite the order's creator for this slice.
    pub acceptor: u64,
    /// Reserved size; zeroed when the ticket is resolved.
    pub amount: u64,
    /// The value-depositing side attested completion.
    pub crypto_guy_signed: bool,
    /// The fiat-paying side attested completion.
    pub fiat_guy_signed: bool,
    /// Caller-chosen identifier, unique per order.
    pub ticket_id: u64,
    /// Creation time.
    pub created_at: i64,
}

/// A ticket never carries the depositing side's signature without the paying
/// side's: the paying side must attest first.
pub open spec fn ticket_inv(t: FillTicket) -> bool {
    t.crypto_guy_signed ==> t.fiat_guy_signed
}

/// An open ticket's amount is part of its order's reserved total; resolving
/// the ticket releases at most what is reserved.
pub open spec fn reservation_backed(o: UniversalOrder, t: FillTicket) -> bool {
    t.amount <= o.reserved_amount
}

/// The value-depositing role of a ticket: the creator on a sell order, the
/// ticket's counterparty on a buy order. Roles are derived, never stored.
pub open spec fn crypto_guy_of(o: UniversalOrder, t: FillTicket) -> u64 {
    if o.is_sell_order {
        o.creator
    } else {
        t.acceptor
    }
}

/// The fiat-paying role of a ticket: the counterpart of `crypto_guy_of`.
pub open spec fn fiat_guy_of(o: UniversalOrder, t: FillTicket) -> u64 {
    if o.is_sell_order {
        t.acceptor
    } else {
        o.creator
    }
}

/// What the custody account holds, as a function of the order's ledger: on a
/// sell order the locked-but-unsettled value, on a buy order exactly the value
/// locked by open tickets' counterparties.
pub open spec fn custody_consistent(o: UniversalOrder, vault_balance: u64) -> bool {
    if o.is_sell_order {
        vault_balance == o.spec_remaining()
    } else {
        vault_balance == o.reserved_amount
    }
}

/// The value-depositing party of a ticket.
pub fn crypto_guy(order: &UniversalOrder, ticket: &FillTicket) -> (r: u64)
    ensures
        r == crypto_guy_of(*order, *ticket),
{
    if order.is_sell_order {
        order.creator
    } else {
        ticket.acceptor
    }
}

/// The fiat-paying party of a ticket.
pub fn fiat_guy(order: &UniversalOrder, ticket: &FillTicket) -> (r: u64)
    ensures
        r == fiat_guy_of(*order, *ticket),
{
    if order.is_sell_order {
        ticket.acceptor
    } else {
        order.creator
    }
}

/// The facts the engine reads of a token account the caller supplied: who owns
/// it, which asset it holds, and how much.
#[derive(Clone, Copy, PartialEq, Eq, Structural, Debug)]
pub struct TokenAccountInfo {
    /// Identity that owns the account.
    pub owner: u64,
    /// Asset the account holds.
    pub mint: u64,
    /// Current balance.
    pub amount: u64,
}

} // verus!
