//! Tests of the circuit library: the pure confidential state transitions.

use private_pay::circuits::{
    deposit, execute_swap, init_balance, match_orders, place_order, BalanceState, Fault,
    OrderBookState, SwapState,
};

fn book(buy: u64, sell: u64, nonce: u64) -> OrderBookState {
    OrderBookState { total_buy_orders: buy, total_sell_orders: sell, nonce }
}

#[test]
fn init_balance_is_zero() {
    let s = init_balance();
    assert_eq!(s.balance, 0);
    assert_eq!(s.nonce, 0);
}

#[test]
fn deposit_adds_amount_and_advances_nonce() {
    let s = init_balance();
    let s = deposit(25, s).unwrap();
    assert_eq!(s.balance, 25);
    assert_eq!(s.nonce, 1);
}

#[test]
fn two_deposits_compose() {
    let s = BalanceState { balance: 100, nonce: 7 };
    let s = deposit(3, s).unwrap();
    let s = deposit(9, s).unwrap();
    assert_eq!(s.balance, 112);
    assert_eq!(s.nonce, 9);
}

#[test]
fn deposit_overflow_is_fatal() {
    let s = BalanceState { balance: u64::MAX - 1, nonce: 0 };
    assert_eq!(deposit(2, s), Err(Fault::Overflow));
}

#[test]
fn deposit_nonce_overflow_is_fatal() {
    let s = BalanceState { balance: 0, nonce: u64::MAX };
    assert_eq!(deposit(1, s), Err(Fault::Overflow));
}

#[test]
fn swap_constant_product_exact_value() {
    // output = 10 * 1000 / (100 + 10) = 90 (truncated from 90.909...)
    let s = SwapState { reserve_a: 100, reserve_b: 1000, total_liquidity: 50, nonce: 3 };
    let (s2, out) = execute_swap(10, 0, s).unwrap();
    assert_eq!(out, 90);
    assert_eq!(s2.reserve_a, 110);
    assert_eq!(s2.reserve_b, 910);
    assert_eq!(s2.total_liquidity, 50);
    assert_eq!(s2.nonce, 4);
    // the integer-truncated product never decreases
    assert!(s2.reserve_a as u128 * s2.reserve_b as u128 >= 100u128 * 1000u128);
}

#[test]
fn swap_degenerate_pool_outputs_zero() {
    let s = SwapState { reserve_a: 0, reserve_b: 1000, total_liquidity: 0, nonce: 0 };
    let (s2, out) = execute_swap(12345, 0, s).unwrap();
    assert_eq!(out, 0);
    assert_eq!(s2.reserve_a, 12345);
    assert_eq!(s2.reserve_b, 1000);

    let s = SwapState { reserve_a: 7, reserve_b: 0, total_liquidity: 0, nonce: 0 };
    let (_, out) = execute_swap(50, 0, s).unwrap();
    assert_eq!(out, 0);
}

#[test]
fn swap_min_output_overrides_formula() {
    // formula output is 90; a stated minimum of 95 becomes the payout
    let s = SwapState { reserve_a: 100, reserve_b: 1000, total_liquidity: 0, nonce: 0 };
    let (s2, out) = execute_swap(10, 95, s).unwrap();
    assert_eq!(out, 95);
    assert_eq!(s2.reserve_b, 905);
}

#[test]
fn swap_min_output_underflow_is_fatal() {
    // the forced payout exceeds reserve B entirely
    let s = SwapState { reserve_a: 100, reserve_b: 1000, total_liquidity: 0, nonce: 0 };
    assert_eq!(execute_swap(10, 1001, s), Err(Fault::Underflow));
}

#[test]
fn swap_product_overflow_is_fatal() {
    let s = SwapState { reserve_a: 1, reserve_b: u64::MAX, total_liquidity: 0, nonce: 0 };
    assert_eq!(execute_swap(2, 0, s), Err(Fault::Overflow));
}

#[test]
fn place_buy_order_moves_only_buy_total() {
    let b = book(10, 20, 5);
    let b2 = place_order(0, 7, 999, b).unwrap();
    assert_eq!(b2.total_buy_orders, 17);
    assert_eq!(b2.total_sell_orders, 20);
    assert_eq!(b2.nonce, 6);
}

#[test]
fn place_sell_order_moves_only_sell_total() {
    let b = book(10, 20, 5);
    let b2 = place_order(1, 7, 999, b).unwrap();
    assert_eq!(b2.total_buy_orders, 10);
    assert_eq!(b2.total_sell_orders, 27);
    assert_eq!(b2.nonce, 6);
}

#[test]
fn place_order_overflow_is_fatal() {
    let b = book(u64::MAX, 0, 0);
    assert_eq!(place_order(0, 1, 0, b), Err(Fault::Overflow));
}

#[test]
fn match_orders_reduces_both_totals_by_min_size() {
    let b = book(100, 100, 0);
    // match size = min(30, 12) = 12; mid price = (10 + 8) / 2 = 9
    // matched_b = 12 * 9 / 10 = 10 (truncated)
    let (b2, matched_a, matched_b) = match_orders(0, 30, 10, 1, 12, 8, b).unwrap();
    assert_eq!(matched_a, 12);
    assert_eq!(matched_b, 10);
    assert_eq!(b2.total_buy_orders, 88);
    assert_eq!(b2.total_sell_orders, 88);
    assert_eq!(b2.nonce, 1);
}

#[test]
fn match_orders_zero_buy_price_is_fatal() {
    let b = book(100, 100, 0);
    assert_eq!(match_orders(0, 30, 0, 1, 12, 8, b), Err(Fault::DivisionByZero));
}

#[test]
fn match_orders_underflow_is_fatal() {
    // the matched volume exceeds the recorded buy total
    let b = book(5, 100, 0);
    assert_eq!(match_orders(0, 30, 10, 1, 12, 8, b), Err(Fault::Underflow));
}

#[test]
fn match_orders_price_sum_overflow_is_fatal() {
    let b = book(100, 100, 0);
    assert_eq!(match_orders(0, 1, u64::MAX, 1, 1, 1, b), Err(Fault::Overflow));
}
