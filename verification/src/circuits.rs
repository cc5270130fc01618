//! Confidential state-transition circuits.
//!
//! Each circuit is a pure, deterministic function over the decrypted values
//! that the compute network holds during an invocation.  A circuit has no
//! recoverable-error channel: any arithmetic overflow, underflow or division
//! by zero is a fatal computation fault, observed by the ledger only as an
//! aborted computation.  The `Fault` value records which arithmetic step
//! failed, in the order the steps are evaluated.

use vstd::prelude::*;

verus! {

/// Fatal arithmetic fault inside a circuit invocation.
#[derive(Clone, Copy, PartialEq, Eq, Structural, Debug)]
pub enum Fault {
    Overflow,
    Underflow,
    DivisionByZero,
}

/// Balance record of one account, as decrypted inside the compute context.
///
/// `nonce` is the confidential-domain replay counter, distinct from the
/// 128-bit ledger-level encryption nonce.
#[derive(Clone, Copy, PartialEq, Eq, Structural, Debug)]
pub struct BalanceState {
    pub balance: u64,
    pub nonce: u64,
}

/// Constant-product pool state, as decrypted inside the compute context.
#[derive(Clone, Copy, PartialEq, Eq, Structural, Debug)]
pub struct SwapState {
    pub reserve_a: u64,
    pub reserve_b: u64,
    pub total_liquidity: u64,
    pub nonce: u64,
}

/// One dark-pool order.  It exists only transiently as circuit input and
/// output; no ledger record ever stores it.
#[derive(Clone, Copy, PartialEq, Eq, Structural, Debug)]
pub struct OrderState {
    /// 0 = buy, anything else = sell.
    pub side: u8,
    pub size: u64,
    pub price: u64,
    pub nonce: u64,
}

/// Aggregate dark-pool order-book state.
#[derive(Clone, Copy, PartialEq, Eq, Structural, Debug)]
pub struct OrderBookState {
    pub total_buy_orders: u64,
    pub total_sell_orders: u64,
    pub nonce: u64,
}

/// What `deposit` computes: balance grows by the public amount, the replay
/// counter advances, and either addition overflowing is a fatal fault.
pub open spec fn deposit_spec(amount: u64, s: BalanceState) -> Result<BalanceState, Fault> {
    if s.balance + amount > u64::MAX {
        Err(Fault::Overflow)
    } else if s.nonce == u64::MAX {
        Err(Fault::Overflow)
    } else {
        Ok(BalanceState { balance: (s.balance + amount) as u64, nonce: (s.nonce + 1) as u64 })
    }
}

/// The constant-product formula's raw output, before the slippage override:
/// `input * reserve_b / (reserve_a + input)`, and 0 for a degenerate pool.
pub open spec fn swap_formula_output(reserve_a: u64, reserve_b: u64, input: u64) -> int {
    if reserve_a > 0 && reserve_b > 0 {
        (input * reserve_b) / (reserve_a + input)
    } else {
        0
    }
}

/// The amount the swap actually pays out: the formula output, forced upward
/// to the caller's stated minimum when the formula produced less.
pub open spec fn swap_final_output(reserve_a: u64, reserve_b: u64, input: u64, min_output: u64) -> int {
    let out = swap_formula_output(reserve_a, reserve_b, input);
    if out < min_output {
        min_output as int
    } else {
        out
    }
}

/// What `execute_swap` computes, with faults in evaluation order: the
/// formula's product and denominator, the reserve-A update, the reserve-B
/// debit, then the replay counter.
pub open spec fn swap_spec(input: u64, min_output: u64, s: SwapState) -> Result<(SwapState, u64), Fault> {
    let ra = s.reserve_a;
    let rb = s.reserve_b;
    if ra > 0 && rb > 0 && input * rb > u64::MAX {
        Err(Fault::Overflow)
    } else if ra > 0 && rb > 0 && ra + input > u64::MAX {
        Err(Fault::Overflow)
    } else {
        let fo = swap_final_output(ra, rb, input, min_output);
        if ra + input > u64::MAX {
            Err(Fault::Overflow)
        } else if fo > rb {
            Err(Fault::Underflow)
        } else if s.nonce == u64::MAX {
            Err(Fault::Overflow)
        } else {
            Ok((
                SwapState {
                    reserve_a: (ra + input) as u64,
                    reserve_b: (rb - fo) as u64,
                    total_liquidity: s.total_liquidity,
                    nonce: (s.nonce + 1) as u64,
                },
                fo as u64,
            ))
        }
    }
}

/// What `place_order` computes: side 0 grows the buy total, any other side
/// grows the sell total, and the replay counter advances.
pub open spec fn place_order_spec(side: u8, size: u64, book: OrderBookState) -> Result<OrderBookState, Fault> {
    if side == 0 {
        if book.total_buy_orders + size > u64::MAX {
            Err(Fault::Overflow)
        } else if book.nonce == u64::MAX {
            Err(Fault::Overflow)
        } else {
            Ok(OrderBookState {
                total_buy_orders: (book.total_buy_orders + size) as u64,
                total_sell_orders: book.total_sell_orders,
                nonce: (book.nonce + 1) as u64,
            })
        }
    } else {
        if book.total_sell_orders + size > u64::MAX {
            Err(Fault::Overflow)
        } else if book.nonce == u64::MAX {
            Err(Fault::Overflow)
        } else {
            Ok(OrderBookState {
                total_buy_orders: book.total_buy_orders,
                total_sell_orders: (book.total_sell_orders + size) as u64,
                nonce: (book.nonce + 1) as u64,
            })
        }
    }
}

/// The matched volume: the smaller of the two order sizes.
pub open spec fn match_size_spec(buy_size: u64, sell_size: u64) -> u64 {
    if buy_size < sell_size {
        buy_size
    } else {
        sell_size
    }
}

/// What `match_orders` computes, with faults in evaluation order: the
/// mid-price sum, the two total debits, the replay counter, then the
/// second matched amount's product and its division by the buy price.
pub open spec fn match_orders_spec(
    buy_size: u64,
    buy_price: u64,
    sell_size: u64,
    sell_price: u64,
    book: OrderBookState,
) -> Result<(OrderBookState, u64, u64), Fault> {
    let ms = match_size_spec(buy_size, sell_size);
    if buy_price + sell_price > u64::MAX {
        Err(Fault::Overflow)
    } else {
        let mid = (buy_price + sell_price) / 2;
        if ms > book.total_buy_orders {
            Err(Fault::Underflow)
        } else if ms > book.total_sell_orders {
            Err(Fault::Underflow)
        } else if book.nonce == u64::MAX {
            Err(Fault::Overflow)
        } else if ms * mid > u64::MAX {
            Err(Fault::Overflow)
        } else if buy_price == 0 {
            Err(Fault::DivisionByZero)
        } else {
            Ok((
                OrderBookState {
                    total_buy_orders: (book.total_buy_orders - ms) as u64,
                    total_sell_orders: (book.total_sell_orders - ms) as u64,
                    nonce: (book.nonce + 1) as u64,
                },
                ms,
                ((ms * mid) / (buy_price as int)) as u64,
            ))
        }
    }
}

/// A fresh balance record: zero balance, zero replay counter.  Never faults.
pub fn init_balance() -> (r: BalanceState)
    ensures
        r == (BalanceState { balance: 0, nonce: 0 }),
{
    BalanceState { balance: 0, nonce: 0 }
}

/// Add a public `amount` to a private balance and advance its replay counter.
pub fn deposit(amount: u64, balance_state: BalanceState) -> (r: Result<BalanceState, Fault>)
    ensures
        r == deposit_spec(amount, balance_state),
        r is Ok <==> balance_state.balance + amount <= u64::MAX && balance_state.nonce < u64::MAX,
        r is Ok ==> r->Ok_0.balance == balance_state.balance + amount
            && r->Ok_0.nonce == balance_state.nonce + 1,
{
    match balance_state.balance.checked_add(amount) {
        Some(new_balance) => match balance_state.nonce.checked_add(1) {
            Some(new_nonce) => Ok(BalanceState { balance: new_balance, nonce: new_nonce }),
            None => Err(Fault::Overflow),
        },
        None => Err(Fault::Overflow),
    }
}

/// Constant-product swap of `input` units of token A for token B.
///
/// A degenerate pool (either reserve zero) prices the trade at zero output.
/// The slippage policy does not reject a low output: it forces the payout
/// up to `min_output`, beyond what the formula produced.
pub fn execute_swap(input: u64, min_output: u64, swap_state: SwapState) -> (r: Result<(SwapState, u64), Fault>)
    ensures
        r == swap_spec(input, min_output, swap_state),
        r is Ok ==> r->Ok_0.1 == swap_final_output(
            swap_state.reserve_a, swap_state.reserve_b, input, min_output),
        r is Ok ==> r->Ok_0.0 == (SwapState {
            reserve_a: (swap_state.reserve_a + input) as u64,
            reserve_b: (swap_state.reserve_b - r->Ok_0.1) as u64,
            total_liquidity: swap_state.total_liquidity,
            nonce: (swap_state.nonce + 1) as u64,
        }),
        swap_state.reserve_a == 0 ==> swap_formula_output(
            swap_state.reserve_a, swap_state.reserve_b, input) == 0,
{
    let ra = swap_state.reserve_a;
    let rb = swap_state.reserve_b;
    let output: u64;
    if ra > 0 && rb > 0 {
        let prod = match input.checked_mul(rb) {
            Some(p) => p,
            None => return Err(Fault::Overflow),
        };
        let denom = match ra.checked_add(input) {
            Some(d) => d,
            None => return Err(Fault::Overflow),
        };
        output = prod / denom;
    } else {
        output = 0;
    }
    let final_output: u64 = if output < min_output {
        min_output
    } else {
        output
    };
    let new_reserve_a = match ra.checked_add(input) {
        Some(v) => v,
        None => return Err(Fault::Overflow),
    };
    let new_reserve_b = match rb.checked_sub(final_output) {
        Some(v) => v,
        None => return Err(Fault::Underflow),
    };
    let new_nonce = match swap_state.nonce.checked_add(1) {
        Some(v) => v,
        None => return Err(Fault::Overflow),
    };
    Ok((
        SwapState {
            reserve_a: new_reserve_a,
            reserve_b: new_reserve_b,
            total_liquidity: swap_state.total_liquidity,
            nonce: new_nonce,
        },
        final_output,
    ))
}

/// Record an order in the aggregate book.  The price is accepted but not
/// folded into book state in this version.
pub fn place_order(side: u8, size: u64, _price: u64, order_book: OrderBookState) -> (r: Result<OrderBookState, Fault>)
    ensures
        r == place_order_spec(side, size, order_book),
        r is Ok && side == 0 ==> r->Ok_0.total_buy_orders == order_book.total_buy_orders + size
            && r->Ok_0.total_sell_orders == order_book.total_sell_orders,
        r is Ok && side != 0 ==> r->Ok_0.total_sell_orders == order_book.total_sell_orders + size
            && r->Ok_0.total_buy_orders == order_book.total_buy_orders,
        r is Ok ==> r->Ok_0.nonce == order_book.nonce + 1,
{
    if side == 0 {
        let new_buy = match order_book.total_buy_orders.checked_add(size) {
            Some(v) => v,
            None => return Err(Fault::Overflow),
        };
        let new_nonce = match order_book.nonce.checked_add(1) {
            Some(v) => v,
            None => return Err(Fault::Overflow),
        };
        Ok(OrderBookState {
            total_buy_orders: new_buy,
            total_sell_orders: order_book.total_sell_orders,
            nonce: new_nonce,
        })
    } else {
        let new_sell = match order_book.total_sell_orders.checked_add(size) {
            Some(v) => v,
            None => return Err(Fault::Overflow),
        };
        let new_nonce = match order_book.nonce.checked_add(1) {
            Some(v) => v,
            None => return Err(Fault::Overflow),
        };
        Ok(OrderBookState {
            total_buy_orders: order_book.total_buy_orders,
            total_sell_orders: new_sell,
            nonce: new_nonce,
        })
    }
}

/// Cross one buy order against one sell order at the mid-price.
///
/// The matched volume is the smaller size; both aggregate totals shrink by
/// exactly that volume.  The second matched amount divides by the buy
/// price, so a zero buy price is a fatal fault, never a silent result.
pub fn match_orders(
    _buy_side: u8,
    buy_size: u64,
    buy_price: u64,
    _sell_side: u8,
    sell_size: u64,
    sell_price: u64,
    order_book: OrderBookState,
) -> (r: Result<(OrderBookState, u64, u64), Fault>)
    ensures
        r == match_orders_spec(buy_size, buy_price, sell_size, sell_price, order_book),
        r is Ok ==> r->Ok_0.1 == match_size_spec(buy_size, sell_size),
        r is Ok ==> r->Ok_0.0.total_buy_orders
            == order_book.total_buy_orders - match_size_spec(buy_size, sell_size)
            && r->Ok_0.0.total_sell_orders
            == order_book.total_sell_orders - match_size_spec(buy_size, sell_size),
        buy_price == 0 ==> !(r is Ok),
{
    let match_size: u64 = if buy_size < sell_size {
        buy_size
    } else {
        sell_size
    };
    let price_sum = match buy_price.checked_add(sell_price) {
        Some(v) => v,
        None => return Err(Fault::Overflow),
    };
    let mid_price = price_sum / 2;
    let new_buy = match order_book.total_buy_orders.checked_sub(match_size) {
        Some(v) => v,
        None => return Err(Fault::Underflow),
    };
    let new_sell = match order_book.total_sell_orders.checked_sub(match_size) {
        Some(v) => v,
        None => return Err(Fault::Underflow),
    };
    let new_nonce = match order_book.nonce.checked_add(1) {
        Some(v) => v,
        None => return Err(Fault::Overflow),
    };
    let matched_product = match match_size.checked_mul(mid_price) {
        Some(v) => v,
        None => return Err(Fault::Overflow),
    };
    if buy_price == 0 {
        return Err(Fault::DivisionByZero);
    }
    let matched_b = matched_product / buy_price;
    Ok((
        OrderBookState {
            total_buy_orders: new_buy,
            total_sell_orders: new_sell,
            nonce: new_nonce,
        },
        match_size,
        matched_b,
    ))
}

} // verus!
