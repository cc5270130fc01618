//! Laws of the circuit library and of the callback protocol.
//!
//! Each proof function states one property a consumer may rely on, over
//! the same specification functions the executable contracts use.

use vstd::prelude::*;
use vstd::arithmetic::div_mod::{lemma_fundamental_div_mod, lemma_mod_bound};
use crate::circuits::{
    deposit_spec, match_orders_spec, match_size_spec, place_order_spec, swap_final_output,
    swap_formula_output, swap_spec, BalanceState, OrderBookState, SwapState,
};
use crate::codec::{balance_blob, balance_from_blob, lemma_balance_codec_round_trip};
use crate::ledger::{
    apply_spec, comp_idx, comp_with_id, create_balance_spec, model_blob, model_enc_nonce, wf,
    ErrorCode, LedgerModel, OutputBundle,
};
use crate::request::CircuitKind;

verus! {

/// Two deposits compose: the balance grows by the two amounts together
/// and the replay counter advances by exactly two, whenever neither sum
/// overflows.
pub proof fn lemma_deposit_composes(amount1: u64, amount2: u64, s: BalanceState)
    requires
        s.balance + amount1 + amount2 <= u64::MAX,
        s.nonce + 2 <= u64::MAX,
    ensures
        deposit_spec(amount1, s) is Ok,
        deposit_spec(amount2, deposit_spec(amount1, s)->Ok_0) is Ok,
        deposit_spec(amount2, deposit_spec(amount1, s)->Ok_0)->Ok_0.balance == s.balance + amount1
            + amount2,
        deposit_spec(amount2, deposit_spec(amount1, s)->Ok_0)->Ok_0.nonce == s.nonce + 2,
{
}

/// No-fee constant-product conservation: on a live pool, with a positive
/// input and with the minimum output not overriding the formula, a
/// successful swap never decreases the product of the reserves.
pub proof fn lemma_swap_product_non_decreasing(input: u64, min_output: u64, s: SwapState)
    requires
        s.reserve_a > 0,
        s.reserve_b > 0,
        input > 0,
        min_output <= swap_formula_output(s.reserve_a, s.reserve_b, input),
        swap_spec(input, min_output, s) is Ok,
    ensures
        ({
            let s2 = swap_spec(input, min_output, s)->Ok_0.0;
            s2.reserve_a * s2.reserve_b >= s.reserve_a * s.reserve_b
        }),
{
    let ra = s.reserve_a as int;
    let rb = s.reserve_b as int;
    let x = input as int;
    let d = ra + x;
    let q = (x * rb) / d;
    let rem = (x * rb) % d;
    lemma_fundamental_div_mod(x * rb, d);
    lemma_mod_bound(x * rb, d);
    let s2 = swap_spec(input, min_output, s)->Ok_0.0;
    assert(swap_formula_output(s.reserve_a, s.reserve_b, input) == q);
    assert(swap_final_output(s.reserve_a, s.reserve_b, input, min_output) == q);
    assert(s2.reserve_a == d && s2.reserve_b == rb - q);
    assert(d * q == x * rb - rem);
    assert(d * (rb - q) == d * rb - d * q) by (nonlinear_arith);
    assert(d * rb == ra * rb + x * rb) by (nonlinear_arith)
        requires
            d == ra + x,
    ;
    assert(d * (rb - q) == ra * rb + rem);
    assert(s2.reserve_a * s2.reserve_b >= s.reserve_a * s.reserve_b);
}

/// Degenerate pool: with reserve A empty the formula prices every input
/// at zero output.
pub proof fn lemma_swap_degenerate(reserve_a: u64, reserve_b: u64, input: u64)
    requires
        reserve_a == 0,
    ensures
        swap_formula_output(reserve_a, reserve_b, input) == 0,
{
}

/// Slippage override: a stated minimum strictly above the formula output
/// becomes the payout itself — the swap is not rejected, it pays out more
/// than the formula produced.
pub proof fn lemma_swap_slippage_override(input: u64, min_output: u64, s: SwapState)
    requires
        min_output > swap_formula_output(s.reserve_a, s.reserve_b, input),
        swap_spec(input, min_output, s) is Ok,
    ensures
        swap_spec(input, min_output, s)->Ok_0.1 == min_output,
{
}

/// Placing an order moves exactly one side of the book: side 0 grows the
/// buy total by the order's size and leaves the sell total unchanged; any
/// other side does the opposite.
pub proof fn lemma_place_order_sides(side: u8, size: u64, book: OrderBookState)
    requires
        place_order_spec(side, size, book) is Ok,
    ensures
        side == 0 ==> place_order_spec(side, size, book)->Ok_0.total_buy_orders
            == book.total_buy_orders + size && place_order_spec(side, size, book)->Ok_0.total_sell_orders
            == book.total_sell_orders,
        side != 0 ==> place_order_spec(side, size, book)->Ok_0.total_sell_orders
            == book.total_sell_orders + size && place_order_spec(side, size, book)->Ok_0.total_buy_orders
            == book.total_buy_orders,
{
}

/// Matching conservation: a successful match reduces both aggregate
/// totals by exactly the smaller of the two order sizes.
pub proof fn lemma_match_conservation(
    buy_size: u64,
    buy_price: u64,
    sell_size: u64,
    sell_price: u64,
    book: OrderBookState,
)
    requires
        match_orders_spec(buy_size, buy_price, sell_size, sell_price, book) is Ok,
    ensures
        ({
            let book2 = match_orders_spec(buy_size, buy_price, sell_size, sell_price, book)->Ok_0.0;
            let ms = match_size_spec(buy_size, sell_size);
            book2.total_buy_orders == book.total_buy_orders - ms && book2.total_sell_orders
                == book.total_sell_orders - ms
        }),
{
}

/// A zero buy price is a fatal computation fault: the mid-price amount
/// divides by the buy price, so no result is ever produced.
pub proof fn lemma_match_zero_buy_price_faults(
    buy_size: u64,
    buy_price: u64,
    sell_size: u64,
    sell_price: u64,
    book: OrderBookState,
)
    requires
        buy_price == 0,
    ensures
        match_orders_spec(buy_size, buy_price, sell_size, sell_price, book) is Err,
{
}

/// Replay safety: once a callback has applied a signed output under a
/// correlation id, replaying any bundle under that id is rejected and
/// leaves the ledger unchanged.
pub proof fn lemma_replay_rejected(
    m: LedgerModel,
    expected: CircuitKind,
    correlation_id: u64,
    verdict1: Option<OutputBundle>,
    verdict2: Option<OutputBundle>,
    now1: i64,
    now2: i64,
)
    requires
        wf(m),
        apply_spec(m, expected, correlation_id, verdict1, now1).1 is Ok,
    ensures
        ({
            let m1 = apply_spec(m, expected, correlation_id, verdict1, now1).0;
            apply_spec(m1, expected, correlation_id, verdict2, now2) == (
                m1,
                Err::<(), ErrorCode>(ErrorCode::ComputationAlreadyApplied),
            )
        }),
{
    let ci = comp_idx(m.comps, correlation_id);
    let m1 = apply_spec(m, expected, correlation_id, verdict1, now1).0;
    assert(m1.comps[ci].correlation_id == correlation_id);
    assert(comp_with_id(m1.comps, correlation_id));
    let j = comp_idx(m1.comps, correlation_id);
    assert(0 <= j < m1.comps.len() && m1.comps[j].correlation_id == correlation_id);
    if j != ci {
        assert(m.comps[j].correlation_id == correlation_id);
        assert(m.comps[ci].correlation_id != m.comps[j].correlation_id);
    }
    assert(j == ci);
    assert(m1.comps[ci].status is Completed);
}

/// End-to-end initialization: once a freshly created balance account's
/// `init_balance` computation completes with a verified output carrying
/// the zero state's encoding, the stored blob decodes to the zero state
/// and the account carries the output's encryption nonce.
pub proof fn lemma_init_balance_end_to_end(
    m: LedgerModel,
    caller: u64,
    addr: [u8; 32],
    bump: u8,
    correlation_id: u64,
    enc_nonce: u128,
    bundle: OutputBundle,
    now: i64,
)
    requires
        wf(m),
        m.accounts.len() <= usize::MAX,
        create_balance_spec(m, caller, addr, bump, correlation_id, enc_nonce).1 is Ok,
        bundle.state_ciphertext@ == balance_blob(BalanceState { balance: 0, nonce: 0 }),
        bundle.extra_ciphertexts@.len() == 0,
    ensures
        ({
            let m1 = create_balance_spec(m, caller, addr, bump, correlation_id, enc_nonce).0;
            let (m2, res) = apply_spec(
                m1,
                CircuitKind::InitBalance,
                correlation_id,
                Some(bundle),
                now,
            );
            &&& res is Ok
            &&& balance_from_blob(model_blob(m2.accounts[m.accounts.len() as int].data)) == (
            BalanceState { balance: 0, nonce: 0 })
            &&& model_enc_nonce(m2.accounts[m.accounts.len() as int].data) == bundle.ledger_nonce
        }),
{
    let zero = BalanceState { balance: 0, nonce: 0 };
    let m1 = create_balance_spec(m, caller, addr, bump, correlation_id, enc_nonce).0;
    let cn = m.comps.len() as int;
    assert(m1.comps[cn].correlation_id == correlation_id);
    assert(comp_with_id(m1.comps, correlation_id));
    let j = comp_idx(m1.comps, correlation_id);
    assert(0 <= j < m1.comps.len() && m1.comps[j].correlation_id == correlation_id);
    if j != cn {
        assert(m.comps[j].correlation_id == correlation_id);
        assert(comp_with_id(m.comps, correlation_id));
    }
    assert(j == cn);
    assert(balance_blob(zero).len() == 64);
    assert(bundle.state_ciphertext@.subrange(0, 64) =~= balance_blob(zero));
    lemma_balance_codec_round_trip(zero);
}

} // verus!
