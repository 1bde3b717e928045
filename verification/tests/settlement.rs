use escrow_engine::actions::{CloseStep, Payout};
use escrow_engine::errors::UniversalOrderError;
use escrow_engine::sign_ticket::sign_ticket;
use escrow_engine::state::{FillTicket, TokenAccountInfo, UniversalOrder};

const ORDER_KEY: u64 = 7_000;
const CREATOR: u64 = 1;
const ACCEPTOR: u64 = 2;
const ADMIN: u64 = 99;
const MINT: u64 = 9;

fn sell_order_with_ticket(committed: u64, amount: u64) -> (UniversalOrder, FillTicket) {
    let order = UniversalOrder {
        creator: CREATOR,
        crypto_mint: MINT,
        is_sell_order: true,
        crypto_amount: committed,
        fiat_amount: 50,
        order_id: 1,
        filled_amount: 0,
        reserved_amount: amount,
        last_action_ts: 0,
        daily_fill_count: 1,
        daily_reset_ts: 0,
        created_at: 0,
        updated_at: 0,
    };
    let ticket = FillTicket {
        order: ORDER_KEY,
        acceptor: ACCEPTOR,
        amount,
        crypto_guy_signed: false,
        fiat_guy_signed: false,
        ticket_id: 1,
        created_at: 0,
    };
    (order, ticket)
}

fn fiat_acct() -> Option<TokenAccountInfo> {
    Some(TokenAccountInfo { owner: ACCEPTOR, mint: MINT, amount: 0 })
}

fn fee_acct() -> Option<TokenAccountInfo> {
    Some(TokenAccountInfo { owner: ADMIN, mint: MINT, amount: 0 })
}

#[test]
fn depositor_cannot_sign_first() {
    let (mut order, mut ticket) = sell_order_with_ticket(500_000, 500_000);
    // On a sell order the creator is the depositing side.
    let r = sign_ticket(
        &mut order, &mut ticket, ORDER_KEY, CREATOR, 500_000, fiat_acct(), fee_acct(), ADMIN, 10,
    );
    assert_eq!(r.unwrap_err(), UniversalOrderError::SignatureRequired);
    assert!(!ticket.crypto_guy_signed && !ticket.fiat_guy_signed);
}

#[test]
fn fiat_then_crypto_settles_with_fee_split() {
    let (mut order, mut ticket) = sell_order_with_ticket(500_000, 500_000);
    let out = sign_ticket(
        &mut order, &mut ticket, ORDER_KEY, ACCEPTOR, 500_000, fiat_acct(), fee_acct(), ADMIN, 10,
    )
    .unwrap();
    assert!(out.transfers.is_empty() && out.closes.is_empty());
    assert!(ticket.fiat_guy_signed && !ticket.crypto_guy_signed);
    assert_eq!(order.filled_amount, 0);

    let out = sign_ticket(
        &mut order, &mut ticket, ORDER_KEY, CREATOR, 500_000, fiat_acct(), fee_acct(), ADMIN, 20,
    )
    .unwrap();
    // fee = 500_000 * 20 / 10_000 = 1_000; the rest goes to the fiat side.
    assert_eq!(
        out.transfers,
        vec![
            Payout { to: ACCEPTOR, amount: 499_000 },
            Payout { to: ADMIN, amount: 1_000 },
        ]
    );
    assert_eq!(order.filled_amount, 500_000);
    assert_eq!(order.reserved_amount, 0);
    assert_eq!(ticket.amount, 0);
    assert!(ticket.crypto_guy_signed && ticket.fiat_guy_signed);
    // The order completed and custody drained: vault closes before the order
    // record, and the ticket record goes last.
    assert_eq!(
        out.closes,
        vec![CloseStep::Vault, CloseStep::Order, CloseStep::Ticket]
    );
}

#[test]
fn partial_settlement_keeps_order_open() {
    let (mut order, mut ticket) = sell_order_with_ticket(1_000_000, 400_000);
    sign_ticket(
        &mut order, &mut ticket, ORDER_KEY, ACCEPTOR, 1_000_000, fiat_acct(), fee_acct(), ADMIN, 10,
    )
    .unwrap();
    let out = sign_ticket(
        &mut order, &mut ticket, ORDER_KEY, CREATOR, 1_000_000, fiat_acct(), fee_acct(), ADMIN, 20,
    )
    .unwrap();
    assert_eq!(order.filled_amount, 400_000);
    assert_eq!(order.remaining_amount(), 600_000);
    // Custody still holds the unsettled remainder: only the ticket closes.
    assert_eq!(out.closes, vec![CloseStep::Ticket]);
}

#[test]
fn repeated_signatures_rejected() {
    let (mut order, mut ticket) = sell_order_with_ticket(1_000_000, 400_000);
    sign_ticket(
        &mut order, &mut ticket, ORDER_KEY, ACCEPTOR, 1_000_000, fiat_acct(), fee_acct(), ADMIN, 10,
    )
    .unwrap();
    let r = sign_ticket(
        &mut order, &mut ticket, ORDER_KEY, ACCEPTOR, 1_000_000, fiat_acct(), fee_acct(), ADMIN, 20,
    );
    assert_eq!(r.unwrap_err(), UniversalOrderError::RaceCondition);
}

#[test]
fn stranger_cannot_sign() {
    let (mut order, mut ticket) = sell_order_with_ticket(500_000, 500_000);
    let r = sign_ticket(
        &mut order, &mut ticket, ORDER_KEY, 55, 500_000, fiat_acct(), fee_acct(), ADMIN, 10,
    );
    assert_eq!(r.unwrap_err(), UniversalOrderError::Unauthorized);
}

#[test]
fn ticket_must_belong_to_order() {
    let (mut order, mut ticket) = sell_order_with_ticket(500_000, 500_000);
    let r = sign_ticket(
        &mut order, &mut ticket, ORDER_KEY + 1, ACCEPTOR, 500_000, fiat_acct(), fee_acct(), ADMIN,
        10,
    );
    assert_eq!(r.unwrap_err(), UniversalOrderError::Unauthorized);
}

#[test]
fn settlement_destinations_validated() {
    let (mut order, mut ticket) = sell_order_with_ticket(500_000, 500_000);
    sign_ticket(
        &mut order, &mut ticket, ORDER_KEY, ACCEPTOR, 500_000, fiat_acct(), fee_acct(), ADMIN, 10,
    )
    .unwrap();
    let snapshot = (order, ticket);

    let r = sign_ticket(
        &mut order, &mut ticket, ORDER_KEY, CREATOR, 500_000, None, fee_acct(), ADMIN, 20,
    );
    assert_eq!(r.unwrap_err(), UniversalOrderError::TokenAccountRequired);

    let wrong_mint = Some(TokenAccountInfo { owner: ACCEPTOR, mint: MINT + 1, amount: 0 });
    let r = sign_ticket(
        &mut order, &mut ticket, ORDER_KEY, CREATOR, 500_000, wrong_mint, fee_acct(), ADMIN, 20,
    );
    assert_eq!(r.unwrap_err(), UniversalOrderError::InvalidTokenAccount);

    let wrong_owner = Some(TokenAccountInfo { owner: 55, mint: MINT, amount: 0 });
    let r = sign_ticket(
        &mut order, &mut ticket, ORDER_KEY, CREATOR, 500_000, wrong_owner, fee_acct(), ADMIN, 20,
    );
    assert_eq!(r.unwrap_err(), UniversalOrderError::Unauthorized);

    let r = sign_ticket(
        &mut order, &mut ticket, ORDER_KEY, CREATOR, 500_000, fiat_acct(), None, ADMIN, 20,
    );
    assert_eq!(r.unwrap_err(), UniversalOrderError::TokenAccountRequired);

    let fee_wrong_owner = Some(TokenAccountInfo { owner: 55, mint: MINT, amount: 0 });
    let r = sign_ticket(
        &mut order, &mut ticket, ORDER_KEY, CREATOR, 500_000, fiat_acct(), fee_wrong_owner, ADMIN,
        20,
    );
    assert_eq!(r.unwrap_err(), UniversalOrderError::Unauthorized);

    // Every refused attempt left both records untouched.
    assert_eq!((order, ticket), snapshot);
}

#[test]
fn buy_order_roles_invert() {
    // On a buy order the creator pays fiat and the acceptor deposited.
    let mut order = UniversalOrder {
        is_sell_order: false,
        ..sell_order_with_ticket(500_000, 500_000).0
    };
    let mut ticket = sell_order_with_ticket(500_000, 500_000).1;
    // Custody on a buy order holds exactly the reserved deposits.
    let r = sign_ticket(
        &mut order, &mut ticket, ORDER_KEY, ACCEPTOR, 500_000, fiat_acct(), fee_acct(), ADMIN, 10,
    );
    // The acceptor is now the depositing side and may not sign first.
    assert_eq!(r.unwrap_err(), UniversalOrderError::SignatureRequired);

    let creator_acct = Some(TokenAccountInfo { owner: CREATOR, mint: MINT, amount: 0 });
    sign_ticket(
        &mut order, &mut ticket, ORDER_KEY, CREATOR, 500_000, creator_acct, fee_acct(), ADMIN, 10,
    )
    .unwrap();
    let out = sign_ticket(
        &mut order, &mut ticket, ORDER_KEY, ACCEPTOR, 500_000, creator_acct, fee_acct(), ADMIN, 20,
    )
    .unwrap();
    // The fiat-paying creator receives the net payout.
    assert_eq!(out.transfers[0], Payout { to: CREATOR, amount: 499_000 });
    assert_eq!(out.transfers[1], Payout { to: ADMIN, amount: 1_000 });
}
