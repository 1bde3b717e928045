use escrow_engine::accept_offer_and_lock::accept_offer_and_lock;
use escrow_engine::auto_close::auto_close_if_needed;
use escrow_engine::actions::CloseStep;
use escrow_engine::create_order::create_order;
use escrow_engine::errors::UniversalOrderError;
use escrow_engine::state::{crypto_guy, fiat_guy, TokenAccountInfo, UniversalOrder};
use escrow_engine::types::OfferType;

const ORDER_KEY: u64 = 7_000;
const CREATOR: u64 = 1;
const COUNTERPARTY: u64 = 2;
const MINT: u64 = 9;

fn funded(owner: u64, amount: u64) -> TokenAccountInfo {
    TokenAccountInfo { owner, mint: MINT, amount }
}

#[test]
fn sell_order_locks_committed_amount() {
    let (order, lock) = create_order(
        5, 1_000_000, 50, true, CREATOR, MINT, Some(funded(CREATOR, 1_000_000)), 100,
    )
    .unwrap();
    assert_eq!(lock, 1_000_000);
    assert_eq!(order.creator, CREATOR);
    assert_eq!(order.crypto_amount, 1_000_000);
    assert_eq!(order.filled_amount, 0);
    assert_eq!(order.reserved_amount, 0);
    assert_eq!(order.available_amount(), 1_000_000);
    assert_eq!(order.created_at, 100);
}

#[test]
fn buy_order_locks_nothing() {
    let (order, lock) = create_order(5, 1_000_000, 50, false, CREATOR, MINT, None, 100).unwrap();
    assert_eq!(lock, 0);
    assert!(!order.is_sell_order);
}

#[test]
fn create_order_checks() {
    let r = create_order(5, 0, 50, true, CREATOR, MINT, Some(funded(CREATOR, 1)), 100);
    assert_eq!(r.unwrap_err(), UniversalOrderError::InvalidAmount);
    let r = create_order(5, 10, 0, false, CREATOR, MINT, None, 100);
    assert_eq!(r.unwrap_err(), UniversalOrderError::InvalidAmount);
    let r = create_order(5, 10, 50, true, CREATOR, MINT, None, 100);
    assert_eq!(r.unwrap_err(), UniversalOrderError::InvalidOrderType);
    let r = create_order(5, 10, 50, true, CREATOR, MINT, Some(funded(CREATOR, 9)), 100);
    assert_eq!(r.unwrap_err(), UniversalOrderError::InsufficientBalance);
    let r = create_order(
        5, 10, 50, true, CREATOR, MINT,
        Some(TokenAccountInfo { owner: CREATOR, mint: MINT + 1, amount: 10 }), 100,
    );
    assert_eq!(r.unwrap_err(), UniversalOrderError::InvalidTokenAccount);
    let r = create_order(5, 10, 50, true, CREATOR, MINT, Some(funded(COUNTERPARTY, 10)), 100);
    assert_eq!(r.unwrap_err(), UniversalOrderError::Unauthorized);
}

#[test]
fn accept_offer_creates_fully_reserved_order() {
    let (order, ticket, lock) = accept_offer_and_lock(
        ORDER_KEY, 5, 1, 1_000_000, 50, true, CREATOR, COUNTERPARTY, CREATOR, MINT,
        funded(CREATOR, 1_000_000), 100,
    )
    .unwrap();
    assert_eq!(lock, 1_000_000);
    assert_eq!(order.reserved_amount, 1_000_000);
    assert_eq!(order.available_amount(), 0);
    assert_eq!(ticket.order, ORDER_KEY);
    assert_eq!(ticket.acceptor, COUNTERPARTY);
    assert_eq!(ticket.amount, 1_000_000);
    // Derived roles: on a sell order the creator deposits, the acceptor pays.
    assert_eq!(crypto_guy(&order, &ticket), CREATOR);
    assert_eq!(fiat_guy(&order, &ticket), COUNTERPARTY);
}

#[test]
fn accept_offer_on_buy_order_has_acceptor_deposit() {
    let (order, ticket, lock) = accept_offer_and_lock(
        ORDER_KEY, 5, 1, 1_000_000, 50, false, CREATOR, CREATOR, COUNTERPARTY, MINT,
        funded(COUNTERPARTY, 1_000_000), 100,
    )
    .unwrap();
    assert_eq!(lock, 1_000_000);
    assert_eq!(ticket.acceptor, COUNTERPARTY);
    assert_eq!(crypto_guy(&order, &ticket), COUNTERPARTY);
    assert_eq!(fiat_guy(&order, &ticket), CREATOR);
}

#[test]
fn accept_offer_role_checks() {
    // The depositor may not be the fiat side of the trade.
    let r = accept_offer_and_lock(
        ORDER_KEY, 5, 1, 100, 50, true, CREATOR, CREATOR, CREATOR, MINT, funded(CREATOR, 100), 100,
    );
    assert_eq!(r.unwrap_err(), UniversalOrderError::Unauthorized);
    // On a sell order the depositor must be the creator.
    let r = accept_offer_and_lock(
        ORDER_KEY, 5, 1, 100, 50, true, CREATOR, COUNTERPARTY, 55, MINT, funded(55, 100), 100,
    );
    assert_eq!(r.unwrap_err(), UniversalOrderError::Unauthorized);
    // On a buy order the depositor must not be the creator.
    let r = accept_offer_and_lock(
        ORDER_KEY, 5, 1, 100, 50, false, CREATOR, CREATOR, CREATOR, MINT, funded(CREATOR, 100), 100,
    );
    assert_eq!(r.unwrap_err(), UniversalOrderError::Unauthorized);
    // Zero ticket identifier is refused.
    let r = accept_offer_and_lock(
        ORDER_KEY, 5, 0, 100, 50, true, CREATOR, COUNTERPARTY, CREATOR, MINT, funded(CREATOR, 100),
        100,
    );
    assert_eq!(r.unwrap_err(), UniversalOrderError::InvalidAmount);
    // The depositor's account must cover the locked amount.
    let r = accept_offer_and_lock(
        ORDER_KEY, 5, 1, 100, 50, true, CREATOR, COUNTERPARTY, CREATOR, MINT, funded(CREATOR, 99),
        100,
    );
    assert_eq!(r.unwrap_err(), UniversalOrderError::InsufficientBalance);
}

#[test]
fn reclamation_closes_vault_before_order() {
    let done = UniversalOrder {
        creator: CREATOR,
        crypto_mint: MINT,
        is_sell_order: true,
        crypto_amount: 500_000,
        fiat_amount: 50,
        order_id: 1,
        filled_amount: 500_000,
        reserved_amount: 0,
        last_action_ts: 0,
        daily_fill_count: 1,
        daily_reset_ts: 0,
        created_at: 0,
        updated_at: 0,
    };
    // Completed and drained: destroy the custody account, then the order.
    assert_eq!(
        auto_close_if_needed(&done, 0, false),
        vec![CloseStep::Vault, CloseStep::Order]
    );
    // Still holding value: nothing is destroyed.
    assert_eq!(auto_close_if_needed(&done, 1, false), Vec::<CloseStep>::new());
    // Not complete and not a refund: nothing is destroyed even when empty.
    let open = UniversalOrder { filled_amount: 400_000, ..done };
    assert_eq!(auto_close_if_needed(&open, 0, false), Vec::<CloseStep>::new());
    // A refund closes whenever drained, complete or not.
    assert_eq!(
        auto_close_if_needed(&open, 0, true),
        vec![CloseStep::Vault, CloseStep::Order]
    );
}

#[test]
fn offer_type_direction_flag() {
    assert!(OfferType::Sell.is_sell());
    assert!(!OfferType::Buy.is_sell());
}
