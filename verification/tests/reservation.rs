use escrow_engine::accept_ticket::accept_ticket;
use escrow_engine::errors::UniversalOrderError;
use escrow_engine::state::{TokenAccountInfo, UniversalOrder};

const ORDER_KEY: u64 = 7_000;
const CREATOR: u64 = 1;
const MINT: u64 = 9;

fn sell_order(committed: u64) -> UniversalOrder {
    UniversalOrder {
        creator: CREATOR,
        crypto_mint: MINT,
        is_sell_order: true,
        crypto_amount: committed,
        fiat_amount: 50,
        order_id: 1,
        filled_amount: 0,
        reserved_amount: 0,
        last_action_ts: 0,
        daily_fill_count: 0,
        daily_reset_ts: 0,
        created_at: 0,
        updated_at: 0,
    }
}

fn buy_order(committed: u64) -> UniversalOrder {
    UniversalOrder {
        is_sell_order: false,
        ..sell_order(committed)
    }
}

#[test]
fn sequential_tickets_one_million() {
    let mut order = sell_order(1_000_000);
    let r1 = accept_ticket(&mut order, ORDER_KEY, 1, 600_000, 2, None, 1_000);
    let (ticket, lock) = r1.unwrap();
    assert_eq!(ticket.amount, 600_000);
    assert_eq!(ticket.order, ORDER_KEY);
    assert_eq!(ticket.acceptor, 2);
    assert!(!ticket.crypto_guy_signed && !ticket.fiat_guy_signed);
    assert_eq!(lock, 0); // sell order: custody was funded at order creation
    assert_eq!(order.reserved_amount, 600_000);

    // 600_000 + 500_000 > 1_000_000: the second creation loses the re-check.
    let r2 = accept_ticket(&mut order, ORDER_KEY, 2, 500_000, 3, None, 2_000);
    assert_eq!(r2.unwrap_err(), UniversalOrderError::RaceCondition);
    assert_eq!(order.reserved_amount, 600_000);

    let r3 = accept_ticket(&mut order, ORDER_KEY, 3, 400_000, 3, None, 3_000);
    assert!(r3.is_ok());
    assert_eq!(order.reserved_amount, 1_000_000);
    assert_eq!(order.available_amount(), 0);
    assert_eq!(order.remaining_amount(), 1_000_000);
}

#[test]
fn oversize_and_zero_amounts_rejected() {
    let mut order = sell_order(1_000_000);
    let r = accept_ticket(&mut order, ORDER_KEY, 1, 2_000_000, 2, None, 1_000);
    assert_eq!(r.unwrap_err(), UniversalOrderError::InvalidAmount);
    let r = accept_ticket(&mut order, ORDER_KEY, 1, 0, 2, None, 1_000);
    assert_eq!(r.unwrap_err(), UniversalOrderError::InvalidAmount);
    let r = accept_ticket(&mut order, ORDER_KEY, 0, 100, 2, None, 1_000);
    assert_eq!(r.unwrap_err(), UniversalOrderError::InvalidAmount);
    assert_eq!(order, sell_order(1_000_000));
}

#[test]
fn creator_cannot_fill_own_order() {
    let mut order = sell_order(1_000_000);
    let r = accept_ticket(&mut order, ORDER_KEY, 1, 100, CREATOR, None, 1_000);
    assert_eq!(r.unwrap_err(), UniversalOrderError::Unauthorized);
}

#[test]
fn cooldown_between_creations() {
    let mut order = sell_order(1_000_000);
    assert!(accept_ticket(&mut order, ORDER_KEY, 1, 100, 2, None, 1_000).is_ok());
    let r = accept_ticket(&mut order, ORDER_KEY, 2, 100, 3, None, 1_001);
    assert_eq!(r.unwrap_err(), UniversalOrderError::ActionTooFrequent);
    assert!(accept_ticket(&mut order, ORDER_KEY, 2, 100, 3, None, 1_002).is_ok());
}

#[test]
fn daily_quota_and_window_reset() {
    let mut order = sell_order(1_000_000);
    for i in 0..70u64 {
        let now = 1_000 + 10 * i as i64;
        let r = accept_ticket(&mut order, ORDER_KEY, i + 1, 1, 2, None, now);
        assert!(r.is_ok(), "creation {} should fit the quota", i);
    }
    assert_eq!(order.daily_fill_count, 70);
    let r = accept_ticket(&mut order, ORDER_KEY, 71, 1, 2, None, 2_000);
    assert_eq!(r.unwrap_err(), UniversalOrderError::TooManyFillsPerDay);
    // A full day later the window resets and counting starts over.
    let r = accept_ticket(&mut order, ORDER_KEY, 71, 1, 2, None, 90_000);
    assert!(r.is_ok());
    assert_eq!(order.daily_fill_count, 1);
    assert_eq!(order.daily_reset_ts, 90_000);
}

#[test]
fn buy_ticket_locks_from_acceptor() {
    let mut order = buy_order(1_000_000);
    let r = accept_ticket(&mut order, ORDER_KEY, 1, 400_000, 2, None, 1_000);
    assert_eq!(r.unwrap_err(), UniversalOrderError::TokenAccountRequired);

    let wrong_mint = TokenAccountInfo { owner: 2, mint: MINT + 1, amount: 400_000 };
    let r = accept_ticket(&mut order, ORDER_KEY, 1, 400_000, 2, Some(wrong_mint), 1_000);
    assert_eq!(r.unwrap_err(), UniversalOrderError::InvalidTokenAccount);

    let wrong_owner = TokenAccountInfo { owner: 3, mint: MINT, amount: 400_000 };
    let r = accept_ticket(&mut order, ORDER_KEY, 1, 400_000, 2, Some(wrong_owner), 1_000);
    assert_eq!(r.unwrap_err(), UniversalOrderError::Unauthorized);

    let underfunded = TokenAccountInfo { owner: 2, mint: MINT, amount: 399_999 };
    let r = accept_ticket(&mut order, ORDER_KEY, 1, 400_000, 2, Some(underfunded), 1_000);
    assert_eq!(r.unwrap_err(), UniversalOrderError::InsufficientBalance);
    assert_eq!(order.reserved_amount, 0);

    let funded = TokenAccountInfo { owner: 2, mint: MINT, amount: 400_000 };
    let (ticket, lock) = accept_ticket(&mut order, ORDER_KEY, 1, 400_000, 2, Some(funded), 1_000)
        .unwrap();
    assert_eq!(lock, 400_000); // the acceptor deposits at creation on a buy order
    assert_eq!(ticket.amount, 400_000);
    assert_eq!(order.reserved_amount, 400_000);
}
