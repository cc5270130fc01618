//! Tests of the computation-request builder against the real argument
//! container of the compute network's client crate.

use anchor_lang::prelude::Pubkey;
use arcium_anchor::prelude::{ArgumentRef, ArgumentList};
use private_pay::request::{
    build_deposit_args, build_execute_swap_args, build_init_balance_args, build_match_orders_args,
    build_place_order_args,
};

fn account_key(list: &ArgumentList, i: usize) -> Pubkey {
    list.accounts[i].pubkey
}

#[test]
fn init_balance_args_hold_the_nonce() {
    let list = build_init_balance_args(777);
    assert_eq!(list.args.len(), 1);
    assert!(matches!(list.args[0], ArgumentRef::PlaintextU128(0)));
    assert_eq!(list.values_128_bit, vec![777u128]);
    assert!(list.plaintext_numbers.is_empty());
    assert!(list.byte_arrays.is_empty());
    assert!(list.accounts.is_empty());
}

#[test]
fn deposit_args_are_amount_nonce_account() {
    let addr = [3u8; 32];
    let list = build_deposit_args(500, 12, addr);
    assert_eq!(list.args.len(), 3);
    assert!(matches!(list.args[0], ArgumentRef::PlaintextU64(0)));
    assert!(matches!(list.args[1], ArgumentRef::PlaintextU128(0)));
    assert!(matches!(list.args[2], ArgumentRef::Account(0)));
    assert_eq!(list.plaintext_numbers, vec![500u64]);
    assert_eq!(list.values_128_bit, vec![12u128]);
    assert_eq!(list.accounts.len(), 1);
    assert_eq!(account_key(&list, 0), Pubkey::new_from_array(addr));
    // discriminator (8) + owner (32) + bump (1), then the 64-byte blob
    assert_eq!(list.accounts[0].offset, 41);
    assert_eq!(list.accounts[0].length, 64);
}

#[test]
fn execute_swap_args_order_and_ciphertexts() {
    let key = [9u8; 32];
    let ct_in = [1u8; 32];
    let ct_min = [2u8; 32];
    let addr = [4u8; 32];
    let list = build_execute_swap_args(key, 55, ct_in, ct_min, addr);
    assert_eq!(list.args.len(), 5);
    assert!(matches!(list.args[0], ArgumentRef::X25519Pubkey(0)));
    assert!(matches!(list.args[1], ArgumentRef::PlaintextU128(0)));
    assert!(matches!(list.args[2], ArgumentRef::EncryptedU64(1)));
    assert!(matches!(list.args[3], ArgumentRef::EncryptedU64(2)));
    assert!(matches!(list.args[4], ArgumentRef::Account(0)));
    assert_eq!(list.byte_arrays, vec![key, ct_in, ct_min]);
    assert_eq!(list.values_128_bit, vec![55u128]);
    assert_eq!(account_key(&list, 0), Pubkey::new_from_array(addr));
}

#[test]
fn place_order_args_order_and_ciphertexts() {
    let key = [9u8; 32];
    let side = [1u8; 32];
    let size = [2u8; 32];
    let price = [3u8; 32];
    let addr = [4u8; 32];
    let list = build_place_order_args(key, 66, side, size, price, addr);
    assert_eq!(list.args.len(), 6);
    assert!(matches!(list.args[0], ArgumentRef::X25519Pubkey(0)));
    assert!(matches!(list.args[1], ArgumentRef::PlaintextU128(0)));
    assert!(matches!(list.args[2], ArgumentRef::EncryptedU8(1)));
    assert!(matches!(list.args[3], ArgumentRef::EncryptedU64(2)));
    assert!(matches!(list.args[4], ArgumentRef::EncryptedU64(3)));
    assert!(matches!(list.args[5], ArgumentRef::Account(0)));
    assert_eq!(list.byte_arrays, vec![key, side, size, price]);
}

#[test]
fn match_orders_args_order_and_ciphertexts() {
    let key = [9u8; 32];
    let cts = [[1u8; 32], [2u8; 32], [3u8; 32], [4u8; 32], [5u8; 32], [6u8; 32]];
    let addr = [7u8; 32];
    let list = build_match_orders_args(key, 88, cts[0], cts[1], cts[2], cts[3], cts[4], cts[5], addr);
    assert_eq!(list.args.len(), 9);
    assert!(matches!(list.args[0], ArgumentRef::X25519Pubkey(0)));
    assert!(matches!(list.args[1], ArgumentRef::PlaintextU128(0)));
    assert!(matches!(list.args[2], ArgumentRef::EncryptedU8(1)));
    assert!(matches!(list.args[3], ArgumentRef::EncryptedU64(2)));
    assert!(matches!(list.args[4], ArgumentRef::EncryptedU64(3)));
    assert!(matches!(list.args[5], ArgumentRef::EncryptedU8(4)));
    assert!(matches!(list.args[6], ArgumentRef::EncryptedU64(5)));
    assert!(matches!(list.args[7], ArgumentRef::EncryptedU64(6)));
    assert!(matches!(list.args[8], ArgumentRef::Account(0)));
    assert_eq!(list.byte_arrays.len(), 7);
    assert_eq!(account_key(&list, 0), Pubkey::new_from_array(addr));
}
