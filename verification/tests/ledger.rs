//! Tests of the queue manager and the result verifier/applier.

use private_pay::circuits::{deposit, init_balance, BalanceState};
use private_pay::codec::{decode_balance_state, encode_balance_state};
use private_pay::ledger::{
    AccountData, CompStatus, ErrorCode, Ledger, LedgerEvent, OutputBundle,
};

fn fresh_ledger() -> Ledger {
    let mut l = Ledger::new();
    l.init_balance_comp_def();
    l.init_deposit_comp_def();
    l.init_execute_swap_comp_def();
    l.init_place_order_comp_def();
    l.init_match_orders_comp_def();
    l
}

fn balance_blob_of(l: &Ledger, i: usize) -> [u8; 64] {
    match &l.accounts[i].data {
        AccountData::Balance(b) => b.balance_state,
        _ => panic!("not a balance account"),
    }
}

fn bundle(blob: [u8; 64], nonce: u128, extra: Vec<[u8; 32]>) -> OutputBundle {
    OutputBundle { state_ciphertext: blob.to_vec(), ledger_nonce: nonce, extra_ciphertexts: extra }
}

#[test]
fn registration_is_deterministic_across_ledgers() {
    let a = fresh_ledger();
    let b = fresh_ledger();
    assert_eq!(a.registered.len(), 5);
    for i in 0..5 {
        assert_eq!(a.registered[i].circuit, b.registered[i].circuit);
        assert_eq!(a.registered[i].offset, b.registered[i].offset);
    }
    // distinct circuit names derive distinct definition offsets
    for i in 0..5 {
        for j in (i + 1)..5 {
            assert_ne!(a.registered[i].offset, a.registered[j].offset);
        }
    }
}

#[test]
fn registration_is_idempotent() {
    let mut l = fresh_ledger();
    l.init_balance_comp_def();
    assert_eq!(l.registered.len(), 5);
}

#[test]
fn end_to_end_init_balance() {
    let mut l = fresh_ledger();
    let args = l.create_balance_account(7, [1u8; 32], 255, 42, 99).unwrap();
    assert_eq!(args.values_128_bit, vec![99u128]);
    assert_eq!(l.accounts.len(), 1);
    assert!(l.accounts[0].busy);
    assert_eq!(l.comps.len(), 1);
    assert_eq!(l.comps[0].status, CompStatus::Queued);

    // the compute network runs the circuit and signs its output
    let state = init_balance();
    let out = encode_balance_state(&state);
    let r = l.init_balance_callback(42, Some(bundle(out, 100, vec![])), 1000);
    assert_eq!(r, Ok(()));
    assert!(!l.accounts[0].busy);
    assert_eq!(l.comps[0].status, CompStatus::Completed);
    assert_eq!(
        decode_balance_state(&balance_blob_of(&l, 0)),
        BalanceState { balance: 0, nonce: 0 }
    );
    match &l.accounts[0].data {
        AccountData::Balance(b) => {
            assert_eq!(b.owner, 7);
            assert_eq!(b.nonce, 100);
        },
        _ => panic!("wrong account type"),
    }
    assert_eq!(l.events.len(), 1);
    match &l.events[0] {
        LedgerEvent::BalanceAccountCreated(e) => {
            assert_eq!(e.owner, 7);
            assert_eq!(e.timestamp, 1000);
        },
        _ => panic!("wrong event"),
    }
}

#[test]
fn invalid_signature_leaves_account_unchanged() {
    let mut l = fresh_ledger();
    l.create_balance_account(7, [1u8; 32], 255, 42, 99).unwrap();
    let before = balance_blob_of(&l, 0);
    let r = l.init_balance_callback(42, None, 1000);
    assert_eq!(r, Err(ErrorCode::AbortedComputation));
    assert_eq!(balance_blob_of(&l, 0), before);
    match &l.accounts[0].data {
        AccountData::Balance(b) => assert_eq!(b.nonce, 99),
        _ => panic!("wrong account type"),
    }
    assert_eq!(l.comps[0].status, CompStatus::Aborted);
    assert!(!l.accounts[0].busy);
    assert!(l.events.is_empty());
}

#[test]
fn malformed_output_shape_aborts() {
    let mut l = fresh_ledger();
    l.create_balance_account(7, [1u8; 32], 255, 42, 99).unwrap();
    // state ciphertext shorter than one blob
    let short = OutputBundle {
        state_ciphertext: vec![0u8; 63],
        ledger_nonce: 1,
        extra_ciphertexts: vec![],
    };
    assert_eq!(l.init_balance_callback(42, Some(short), 0), Err(ErrorCode::AbortedComputation));
    assert_eq!(l.comps[0].status, CompStatus::Aborted);

    // extra output where the circuit declares none
    let mut l = fresh_ledger();
    l.create_balance_account(7, [1u8; 32], 255, 42, 99).unwrap();
    let extra = bundle([0u8; 64], 1, vec![[0u8; 32]]);
    assert_eq!(l.init_balance_callback(42, Some(extra), 0), Err(ErrorCode::AbortedComputation));
}

#[test]
fn replaying_an_applied_output_is_rejected() {
    let mut l = fresh_ledger();
    l.create_balance_account(7, [1u8; 32], 255, 42, 99).unwrap();
    let out = encode_balance_state(&init_balance());
    let b = bundle(out, 100, vec![]);
    assert_eq!(l.init_balance_callback(42, Some(b.clone()), 1000), Ok(()));
    let events_before = l.events.len();
    // the same signed bundle again, under the same correlation id
    assert_eq!(
        l.init_balance_callback(42, Some(b), 1001),
        Err(ErrorCode::ComputationAlreadyApplied)
    );
    assert_eq!(l.events.len(), events_before);
    match &l.accounts[0].data {
        AccountData::Balance(bal) => assert_eq!(bal.nonce, 100),
        _ => panic!("wrong account type"),
    }
}

#[test]
fn unknown_correlation_id_is_rejected() {
    let mut l = fresh_ledger();
    let out = encode_balance_state(&init_balance());
    assert_eq!(
        l.init_balance_callback(42, Some(bundle(out, 1, vec![])), 0),
        Err(ErrorCode::UnknownComputation)
    );
}

#[test]
fn callback_for_the_wrong_circuit_is_unrecognized() {
    let mut l = fresh_ledger();
    l.create_balance_account(7, [1u8; 32], 255, 42, 99).unwrap();
    let out = encode_balance_state(&init_balance());
    // the queued computation is init_balance, not deposit
    assert_eq!(
        l.deposit_callback(42, Some(bundle(out, 1, vec![])), 0),
        Err(ErrorCode::UnknownComputation)
    );
    assert_eq!(l.comps[0].status, CompStatus::Queued);
}

#[test]
fn deposit_flow_applies_new_ciphertext() {
    let mut l = fresh_ledger();
    l.create_balance_account(7, [1u8; 32], 255, 42, 99).unwrap();
    let out = encode_balance_state(&init_balance());
    l.init_balance_callback(42, Some(bundle(out, 100, vec![])), 1000).unwrap();

    let args = l.deposit_funds(7, 0, 43, 25).unwrap();
    assert_eq!(args.plaintext_numbers, vec![25u64]);
    // the request carries the account's current encryption nonce
    assert_eq!(args.values_128_bit, vec![100u128]);
    assert!(l.accounts[0].busy);

    let new_state = deposit(25, init_balance()).unwrap();
    let out = encode_balance_state(&new_state);
    assert_eq!(l.deposit_callback(43, Some(bundle(out, 101, vec![])), 2000), Ok(()));
    assert_eq!(
        decode_balance_state(&balance_blob_of(&l, 0)),
        BalanceState { balance: 25, nonce: 1 }
    );
    match &l.events[1] {
        LedgerEvent::DepositCompleted(e) => {
            assert_eq!(e.owner, 7);
            assert_eq!(e.timestamp, 2000);
        },
        _ => panic!("wrong event"),
    }
}

#[test]
fn submission_faults() {
    let mut l = Ledger::new();
    // unknown circuit: nothing registered yet
    assert_eq!(
        l.create_balance_account(7, [1u8; 32], 0, 1, 0).unwrap_err(),
        ErrorCode::UnknownCircuit
    );
    let mut l = fresh_ledger();
    l.create_balance_account(7, [1u8; 32], 0, 1, 0).unwrap();
    // duplicate correlation id
    assert_eq!(
        l.create_balance_account(8, [2u8; 32], 0, 1, 0).unwrap_err(),
        ErrorCode::DuplicateCorrelationId
    );
    // unknown account
    assert_eq!(l.deposit_funds(7, 5, 2, 10).unwrap_err(), ErrorCode::UnknownAccount);
    // authorization fault: caller 8 does not own account 0
    assert_eq!(l.deposit_funds(8, 0, 2, 10).unwrap_err(), ErrorCode::InvalidAuthority);
    // account lock: the init computation is still in flight
    assert_eq!(l.deposit_funds(7, 0, 2, 10).unwrap_err(), ErrorCode::AccountBusy);
    // wrong account type: a swap against a balance account
    assert_eq!(
        l.execute_swap(0, 3, [0u8; 32], [0u8; 32], [0u8; 32], 0).unwrap_err(),
        ErrorCode::MismatchedAccount
    );
}

#[test]
fn swap_flow_emits_encrypted_output_amount() {
    let mut l = fresh_ledger();
    let pool = l.create_swap_pool(9, [5u8; 32], 254, 1111, 2222, 50);
    assert_eq!(pool, 0);
    let args = l.execute_swap(0, 7, [1u8; 32], [2u8; 32], [3u8; 32], 60).unwrap();
    assert_eq!(args.values_128_bit, vec![60u128]);
    let out_ct = [0xABu8; 32];
    let r = l.execute_swap_callback(7, Some(bundle([1u8; 64], 61, vec![out_ct])), 3000);
    assert_eq!(r, Ok(()));
    match &l.accounts[0].data {
        AccountData::SwapPool(p) => {
            assert_eq!(p.swap_state, [1u8; 64]);
            assert_eq!(p.nonce, 61);
            assert_eq!(p.token_a_mint, 1111);
        },
        _ => panic!("wrong account type"),
    }
    match &l.events[0] {
        LedgerEvent::SwapExecuted(e) => {
            assert_eq!(e.pool, [5u8; 32]);
            assert_eq!(e.output_amount, out_ct);
            assert_eq!(e.timestamp, 3000);
        },
        _ => panic!("wrong event"),
    }
}

#[test]
fn order_book_flow() {
    let mut l = fresh_ledger();
    let book = l.create_order_book(9, [6u8; 32], 253, [7u8; 32], 70);
    assert_eq!(book, 0);
    l.place_order(0, 11, [1u8; 32], [2u8; 32], [3u8; 32], [4u8; 32], 71).unwrap();
    assert_eq!(l.place_order_callback(11, Some(bundle([2u8; 64], 72, vec![])), 100), Ok(()));
    match &l.events[0] {
        LedgerEvent::OrderPlaced(e) => assert_eq!(e.order_book, [6u8; 32]),
        _ => panic!("wrong event"),
    }
    // a second order must wait for no one: the lock was released
    l.place_order(0, 12, [1u8; 32], [2u8; 32], [3u8; 32], [4u8; 32], 73).unwrap();
    assert_eq!(l.place_order_callback(12, Some(bundle([3u8; 64], 74, vec![])), 101), Ok(()));

    let cts = [[1u8; 32]; 6];
    l.match_orders(0, 13, cts[0], cts[1], cts[2], cts[3], cts[4], cts[5], [9u8; 32], 75)
        .unwrap();
    let matched = vec![[1u8; 32], [2u8; 32]];
    assert_eq!(l.match_orders_callback(13, Some(bundle([4u8; 64], 76, matched)), 102), Ok(()));
    match &l.events[2] {
        LedgerEvent::OrdersMatched(e) => {
            assert_eq!(e.order_book, [6u8; 32]);
            assert_eq!(e.timestamp, 102);
        },
        _ => panic!("wrong event"),
    }
    match &l.accounts[0].data {
        AccountData::OrderBook(b) => {
            assert_eq!(b.order_book_state, [4u8; 64]);
            assert_eq!(b.nonce, 76);
            assert_eq!(b.pair, [7u8; 32]);
        },
        _ => panic!("wrong account type"),
    }
}
