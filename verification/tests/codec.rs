//! Tests of the fixed-size record codec.

use private_pay::circuits::{BalanceState, OrderBookState, SwapState};
use private_pay::codec::{
    decode_balance_state, decode_order_book_state, decode_swap_state, encode_balance_state,
    encode_order_book_state, encode_swap_state,
};

#[test]
fn zero_balance_encodes_to_zero_blob() {
    let blob = encode_balance_state(&BalanceState { balance: 0, nonce: 0 });
    assert_eq!(blob, [0u8; 64]);
}

#[test]
fn zero_blob_decodes_to_zero_balance() {
    let s = decode_balance_state(&[0u8; 64]);
    assert_eq!(s, BalanceState { balance: 0, nonce: 0 });
}

#[test]
fn balance_blob_layout_is_little_endian() {
    let blob = encode_balance_state(&BalanceState { balance: 0x0102030405060708, nonce: 0xA1B2 });
    assert_eq!(&blob[0..8], &[0x08, 0x07, 0x06, 0x05, 0x04, 0x03, 0x02, 0x01]);
    assert_eq!(&blob[8..16], &[0xB2, 0xA1, 0, 0, 0, 0, 0, 0]);
    assert_eq!(&blob[16..64], &[0u8; 48]);
}

#[test]
fn balance_round_trip() {
    let s = BalanceState { balance: u64::MAX, nonce: 123456789 };
    assert_eq!(decode_balance_state(&encode_balance_state(&s)), s);
}

#[test]
fn swap_round_trip() {
    let s = SwapState {
        reserve_a: 1,
        reserve_b: u64::MAX - 1,
        total_liquidity: 0xDEADBEEF,
        nonce: 42,
    };
    assert_eq!(decode_swap_state(&encode_swap_state(&s)), s);
}

#[test]
fn swap_blob_layout() {
    let s = SwapState { reserve_a: 0x11, reserve_b: 0x22, total_liquidity: 0x33, nonce: 0x44 };
    let blob = encode_swap_state(&s);
    assert_eq!(blob[0], 0x11);
    assert_eq!(blob[8], 0x22);
    assert_eq!(blob[16], 0x33);
    assert_eq!(blob[24], 0x44);
    assert_eq!(&blob[32..64], &[0u8; 32]);
}

#[test]
fn order_book_round_trip() {
    let s = OrderBookState { total_buy_orders: 77, total_sell_orders: 88, nonce: 99 };
    assert_eq!(decode_order_book_state(&encode_order_book_state(&s)), s);
}

#[test]
fn order_book_blob_layout() {
    let s = OrderBookState { total_buy_orders: 0xAA, total_sell_orders: 0xBB, nonce: 0xCC };
    let blob = encode_order_book_state(&s);
    assert_eq!(blob[0], 0xAA);
    assert_eq!(blob[8], 0xBB);
    assert_eq!(blob[16], 0xCC);
    assert_eq!(&blob[24..64], &[0u8; 40]);
}
