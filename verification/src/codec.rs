//! Fixed-size record codec.
//!
//! Every confidential state struct is stored on the ledger as exactly one
//! 64-byte blob.  The plaintext encoding packs the struct's `u64` fields
//! little-endian in declaration order and zero-fills the remainder; the
//! compute network encrypts and decrypts the blob around each circuit
//! invocation, which is outside this crate's concern.

use vstd::prelude::*;
use crate::circuits::{BalanceState, OrderBookState, SwapState};

verus! {

/// Number of bytes in a stored state blob.
pub const STATE_BLOB_LEN: usize = 64;

/// The eight little-endian bytes of a `u64`.
pub open spec fn u64_le(v: u64) -> Seq<u8> {
    seq![
        ((v as int) % 0x100) as u8,
        (((v as int) / 0x100) % 0x100) as u8,
        (((v as int) / 0x10000) % 0x100) as u8,
        (((v as int) / 0x1000000) % 0x100) as u8,
        (((v as int) / 0x100000000) % 0x100) as u8,
        (((v as int) / 0x10000000000) % 0x100) as u8,
        (((v as int) / 0x1000000000000) % 0x100) as u8,
        (((v as int) / 0x100000000000000) % 0x100) as u8,
    ]
}

/// The value of eight little-endian bytes.
pub open spec fn u64_from_le(b: Seq<u8>) -> int
    recommends
        b.len() == 8,
{
    b[0] + 0x100 * b[1] + 0x10000 * b[2] + 0x1000000 * b[3] + 0x100000000 * b[4]
        + 0x10000000000 * b[5] + 0x1000000000000 * b[6] + 0x100000000000000 * b[7]
}

/// Reading back the eight little-endian bytes of a value gives the value.
pub proof fn lemma_u64_le_round_trip(v: u64)
    ensures
        u64_from_le(u64_le(v)) == v,
{
    let x = v as int;
    assert(x == 0x100 * (x / 0x100) + x % 0x100) by (nonlinear_arith);
    assert(x / 0x100 == 0x100 * (x / 0x10000) + (x / 0x100) % 0x100) by (nonlinear_arith)
        requires
            x >= 0,
    ;
    assert(x / 0x10000 == 0x100 * (x / 0x1000000) + (x / 0x10000) % 0x100) by (nonlinear_arith)
        requires
            x >= 0,
    ;
    assert(x / 0x1000000 == 0x100 * (x / 0x100000000) + (x / 0x1000000) % 0x100)
        by (nonlinear_arith)
        requires
            x >= 0,
    ;
    assert(x / 0x100000000 == 0x100 * (x / 0x10000000000) + (x / 0x100000000) % 0x100)
        by (nonlinear_arith)
        requires
            x >= 0,
    ;
    assert(x / 0x10000000000 == 0x100 * (x / 0x1000000000000) + (x / 0x10000000000) % 0x100)
        by (nonlinear_arith)
        requires
            x >= 0,
    ;
    assert(x / 0x1000000000000 == 0x100 * (x / 0x100000000000000) + (x / 0x1000000000000) % 0x100)
        by (nonlinear_arith)
        requires
            x >= 0,
    ;
    assert(x / 0x100000000000000 < 0x100) by (nonlinear_arith)
        requires
            0 <= x < 0x10000000000000000,
    ;
}

/// Plaintext blob layout of a balance record: balance, replay counter,
/// zero padding.
pub open spec fn balance_blob(s: BalanceState) -> Seq<u8> {
    u64_le(s.balance) + u64_le(s.nonce) + Seq::new(48, |i: int| 0u8)
}

/// Plaintext blob layout of a pool record: the two reserves, the total
/// liquidity, the replay counter, zero padding.
pub open spec fn swap_blob(s: SwapState) -> Seq<u8> {
    u64_le(s.reserve_a) + u64_le(s.reserve_b) + u64_le(s.total_liquidity) + u64_le(s.nonce)
        + Seq::new(32, |i: int| 0u8)
}

/// Plaintext blob layout of an order-book record: the two totals, the
/// replay counter, zero padding.
pub open spec fn order_book_blob(s: OrderBookState) -> Seq<u8> {
    u64_le(s.total_buy_orders) + u64_le(s.total_sell_orders) + u64_le(s.nonce)
        + Seq::new(40, |i: int| 0u8)
}

/// The balance record a blob denotes.
pub open spec fn balance_from_blob(b: Seq<u8>) -> BalanceState
    recommends
        b.len() == STATE_BLOB_LEN,
{
    BalanceState {
        balance: u64_from_le(b.subrange(0, 8)) as u64,
        nonce: u64_from_le(b.subrange(8, 16)) as u64,
    }
}

/// The pool record a blob denotes.
pub open spec fn swap_from_blob(b: Seq<u8>) -> SwapState
    recommends
        b.len() == STATE_BLOB_LEN,
{
    SwapState {
        reserve_a: u64_from_le(b.subrange(0, 8)) as u64,
        reserve_b: u64_from_le(b.subrange(8, 16)) as u64,
        total_liquidity: u64_from_le(b.subrange(16, 24)) as u64,
        nonce: u64_from_le(b.subrange(24, 32)) as u64,
    }
}

/// The order-book record a blob denotes.
pub open spec fn order_book_from_blob(b: Seq<u8>) -> OrderBookState
    recommends
        b.len() == STATE_BLOB_LEN,
{
    OrderBookState {
        total_buy_orders: u64_from_le(b.subrange(0, 8)) as u64,
        total_sell_orders: u64_from_le(b.subrange(8, 16)) as u64,
        nonce: u64_from_le(b.subrange(16, 24)) as u64,
    }
}

/// Write the eight little-endian bytes of `v` at `at`.
fn write_u64_le(blob: &mut [u8; 64], at: usize, v: u64)
    requires
        at + 8 <= 64,
    ensures
        final(blob)@.len() == 64,
        forall|i: int|
            0 <= i < 64 ==> final(blob)@[i] == if at <= i < at + 8 {
                u64_le(v)[i - at]
            } else {
                old(blob)@[i]
            },
{
    blob[at] = (v % 0x100) as u8;
    blob[at + 1] = ((v / 0x100) % 0x100) as u8;
    blob[at + 2] = ((v / 0x10000) % 0x100) as u8;
    blob[at + 3] = ((v / 0x1000000) % 0x100) as u8;
    blob[at + 4] = ((v / 0x100000000) % 0x100) as u8;
    blob[at + 5] = ((v / 0x10000000000) % 0x100) as u8;
    blob[at + 6] = ((v / 0x1000000000000) % 0x100) as u8;
    blob[at + 7] = ((v / 0x100000000000000) % 0x100) as u8;
}

/// Read the eight little-endian bytes at `at` back into a `u64`.
fn read_u64_le(blob: &[u8; 64], at: usize) -> (v: u64)
    requires
        at + 8 <= 64,
    ensures
        v == u64_from_le(blob@.subrange(at as int, at + 8)),
{
    let v = blob[at] as u64 + 0x100 * (blob[at + 1] as u64) + 0x10000 * (blob[at + 2] as u64)
        + 0x1000000 * (blob[at + 3] as u64) + 0x100000000 * (blob[at + 4] as u64)
        + 0x10000000000 * (blob[at + 5] as u64) + 0x1000000000000 * (blob[at + 6] as u64)
        + 0x100000000000000 * (blob[at + 7] as u64);
    v
}

/// Encode a balance record into its 64-byte blob.
pub fn encode_balance_state(s: &BalanceState) -> (r: [u8; 64])
    ensures
        r@ == balance_blob(*s),
{
    let mut blob = [0u8; 64];
    write_u64_le(&mut blob, 0, s.balance);
    write_u64_le(&mut blob, 8, s.nonce);
    proof {
        assert(blob@ =~= balance_blob(*s));
    }
    blob
}

/// Decode a 64-byte blob into a balance record.
pub fn decode_balance_state(blob: &[u8; 64]) -> (s: BalanceState)
    ensures
        s == balance_from_blob(blob@),
{
    BalanceState { balance: read_u64_le(blob, 0), nonce: read_u64_le(blob, 8) }
}

/// Encode a pool record into its 64-byte blob.
pub fn encode_swap_state(s: &SwapState) -> (r: [u8; 64])
    ensures
        r@ == swap_blob(*s),
{
    let mut blob = [0u8; 64];
    write_u64_le(&mut blob, 0, s.reserve_a);
    write_u64_le(&mut blob, 8, s.reserve_b);
    write_u64_le(&mut blob, 16, s.total_liquidity);
    write_u64_le(&mut blob, 24, s.nonce);
    proof {
        assert(blob@ =~= swap_blob(*s));
    }
    blob
}

/// Decode a 64-byte blob into a pool record.
pub fn decode_swap_state(blob: &[u8; 64]) -> (s: SwapState)
    ensures
        s == swap_from_blob(blob@),
{
    SwapState {
        reserve_a: read_u64_le(blob, 0),
        reserve_b: read_u64_le(blob, 8),
        total_liquidity: read_u64_le(blob, 16),
        nonce: read_u64_le(blob, 24),
    }
}

/// Encode an order-book record into its 64-byte blob.
pub fn encode_order_book_state(s: &OrderBookState) -> (r: [u8; 64])
    ensures
        r@ == order_book_blob(*s),
{
    let mut blob = [0u8; 64];
    write_u64_le(&mut blob, 0, s.total_buy_orders);
    write_u64_le(&mut blob, 8, s.total_sell_orders);
    write_u64_le(&mut blob, 16, s.nonce);
    proof {
        assert(blob@ =~= order_book_blob(*s));
    }
    blob
}

/// Decode a 64-byte blob into an order-book record.
pub fn decode_order_book_state(blob: &[u8; 64]) -> (s: OrderBookState)
    ensures
        s == order_book_from_blob(blob@),
{
    OrderBookState {
        total_buy_orders: read_u64_le(blob, 0),
        total_sell_orders: read_u64_le(blob, 8),
        nonce: read_u64_le(blob, 16),
    }
}

/// A balance record decodes back from its own encoding.
pub proof fn lemma_balance_codec_round_trip(s: BalanceState)
    ensures
        balance_from_blob(balance_blob(s)) == s,
{
    assert(balance_blob(s).subrange(0, 8) =~= u64_le(s.balance));
    assert(balance_blob(s).subrange(8, 16) =~= u64_le(s.nonce));
    lemma_u64_le_round_trip(s.balance);
    lemma_u64_le_round_trip(s.nonce);
}

/// A pool record decodes back from its own encoding.
#[verifier::rlimit(50)]
pub proof fn lemma_swap_codec_round_trip(s: SwapState)
    ensures
        swap_from_blob(swap_blob(s)) == s,
{
    assert(swap_blob(s).subrange(0, 8) =~= u64_le(s.reserve_a));
    assert(swap_blob(s).subrange(8, 16) =~= u64_le(s.reserve_b));
    assert(swap_blob(s).subrange(16, 24) =~= u64_le(s.total_liquidity));
    assert(swap_blob(s).subrange(24, 32) =~= u64_le(s.nonce));
    lemma_u64_le_round_trip(s.reserve_a);
    lemma_u64_le_round_trip(s.reserve_b);
    lemma_u64_le_round_trip(s.total_liquidity);
    lemma_u64_le_round_trip(s.nonce);
}

/// An order-book record decodes back from its own encoding.
pub proof fn lemma_order_book_codec_round_trip(s: OrderBookState)
    ensures
        order_book_from_blob(order_book_blob(s)) == s,
{
    assert(order_book_blob(s).subrange(0, 8) =~= u64_le(s.total_buy_orders));
    assert(order_book_blob(s).subrange(8, 16) =~= u64_le(s.total_sell_orders));
    assert(order_book_blob(s).subrange(16, 24) =~= u64_le(s.nonce));
    lemma_u64_le_round_trip(s.total_buy_orders);
    lemma_u64_le_round_trip(s.total_sell_orders);
    lemma_u64_le_round_trip(s.nonce);
}

} // verus!
