//! Computation queue manager and result verifier/applier.
//!
//! The ledger is strictly sequential: queueing a computation and applying
//! a callback are each one synchronous state transition.  A queued
//! computation is correlated by a caller-chosen id, holds a per-account
//! lock token until its callback arrives, and is applied at most once.
//! The compute network's signature check itself is an external capability:
//! the callback entry points receive its verdict — the verified output
//! bundle, or nothing — and this module decides everything that follows
//! from it, for every possible verdict.

use vstd::prelude::*;
use crate::request::{
    build_deposit_args, build_execute_swap_args, build_init_balance_args, build_match_orders_args,
    build_place_order_args, circuit_name, circuit_name_spec, comp_def_offset, comp_def_offset_of,
    deposit_args, execute_swap_args, init_balance_args, match_orders_args, place_order_args,
    args_of, CircuitKind,
};

verus! {

/// Error taxonomy of the ledger program.
#[derive(Clone, Copy, PartialEq, Eq, Structural, Debug)]
pub enum ErrorCode {
    /// The caller is not the recorded owner of the target account.
    InvalidAuthority,
    /// The computation was aborted: it produced no valid signed output.
    AbortedComputation,
    /// No compute cluster is configured.  Raised by the deployment glue
    /// that wires accounts to a cluster, never by this module.
    ClusterNotSet,
    /// Declared for balance debits, which no present circuit performs;
    /// never produced.
    InsufficientBalance,
    /// A computation with this correlation id is already recorded.
    DuplicateCorrelationId,
    /// No compute definition is registered for the named circuit.
    UnknownCircuit,
    /// The target account does not exist.
    UnknownAccount,
    /// The target account already has a computation in flight.
    AccountBusy,
    /// The target account does not hold the state type the circuit takes.
    MismatchedAccount,
    /// The callback names no queued computation.
    UnknownComputation,
    /// The named computation's output was already applied or aborted.
    ComputationAlreadyApplied,
}

/// Lifecycle of one queued computation.
#[derive(Clone, Copy, PartialEq, Eq, Structural, Debug)]
pub enum CompStatus {
    Queued,
    Completed,
    Aborted,
}

/// Ledger record of one private balance.
#[derive(Clone, Copy, Debug)]
pub struct PrivateBalanceAccount {
    pub owner: u64,
    pub bump: u8,
    /// Encrypted balance state.
    pub balance_state: [u8; 64],
    /// Ledger-level encryption nonce.
    pub nonce: u128,
}

/// Ledger record of one swap pool.
#[derive(Clone, Copy, Debug)]
pub struct SwapPoolAccount {
    pub owner: u64,
    pub bump: u8,
    pub token_a_mint: u64,
    pub token_b_mint: u64,
    /// Encrypted pool state.
    pub swap_state: [u8; 64],
    /// Ledger-level encryption nonce.
    pub nonce: u128,
}

/// Ledger record of one dark-pool order book.
#[derive(Clone, Copy, Debug)]
pub struct OrderBookAccount {
    pub owner: u64,
    pub bump: u8,
    /// Trading-pair identifier.
    pub pair: [u8; 32],
    /// Encrypted order-book state.
    pub order_book_state: [u8; 64],
    /// Ledger-level encryption nonce.
    pub nonce: u128,
}

/// The one confidential-state blob an account owns.
#[derive(Clone, Copy, Debug)]
pub enum AccountData {
    Balance(PrivateBalanceAccount),
    SwapPool(SwapPoolAccount),
    OrderBook(OrderBookAccount),
}

/// One ledger account: its address, its lock token, and its state record.
#[derive(Clone, Copy, Debug)]
pub struct AccountRecord {
    pub addr: [u8; 32],
    /// True while a queued computation against this account is in flight.
    pub busy: bool,
    pub data: AccountData,
}

/// One recorded computation.
#[derive(Clone, Copy, PartialEq, Eq, Structural, Debug)]
pub struct CompRecord {
    pub correlation_id: u64,
    pub circuit: CircuitKind,
    pub account_index: usize,
    pub status: CompStatus,
}

/// One registered compute definition.
#[derive(Clone, Copy, PartialEq, Eq, Structural, Debug)]
pub struct RegisteredCircuit {
    pub circuit: CircuitKind,
    pub offset: u32,
}

/// The signed output bundle a completed computation delivers, after the
/// external signature check accepted it.
#[derive(Clone, Debug)]
pub struct OutputBundle {
    /// Ciphertext of the circuit's new state output; its first 64 bytes
    /// replace the account's stored blob.
    pub state_ciphertext: Vec<u8>,
    /// The encryption nonce carried by the output.
    pub ledger_nonce: u128,
    /// Ciphertexts of the circuit's further encrypted outputs, in order.
    pub extra_ciphertexts: Vec<[u8; 32]>,
}

/// Event: a balance account finished initialization.
#[derive(Clone, Copy, PartialEq, Eq, Structural, Debug)]
pub struct BalanceAccountCreated {
    pub owner: u64,
    pub timestamp: i64,
}

/// Event: a deposit was applied.
#[derive(Clone, Copy, PartialEq, Eq, Structural, Debug)]
pub struct DepositCompleted {
    pub owner: u64,
    pub timestamp: i64,
}

/// Event: a swap was applied; the output amount stays encrypted.
#[derive(Clone, Copy, Debug)]
pub struct SwapExecuted {
    pub pool: [u8; 32],
    pub output_amount: [u8; 32],
    pub timestamp: i64,
}

/// Event: an order was recorded.
#[derive(Clone, Copy, Debug)]
pub struct OrderPlaced {
    pub order_book: [u8; 32],
    pub timestamp: i64,
}

/// Event: a match was applied.
#[derive(Clone, Copy, Debug)]
pub struct OrdersMatched {
    pub order_book: [u8; 32],
    pub timestamp: i64,
}

/// The events a successful application can emit.
#[derive(Clone, Copy, Debug)]
pub enum LedgerEvent {
    BalanceAccountCreated(BalanceAccountCreated),
    DepositCompleted(DepositCompleted),
    SwapExecuted(SwapExecuted),
    OrderPlaced(OrderPlaced),
    OrdersMatched(OrdersMatched),
}

/// Ghost mirror of one account's state record: the blob as a byte
/// sequence, everything else as the stored plain values.
pub ghost enum AccountDataModel {
    Balance { owner: u64, bump: u8, blob: Seq<u8>, enc_nonce: u128 },
    SwapPool { owner: u64, bump: u8, token_a_mint: u64, token_b_mint: u64, blob: Seq<u8>, enc_nonce: u128 },
    OrderBook { owner: u64, bump: u8, pair: [u8; 32], blob: Seq<u8>, enc_nonce: u128 },
}

/// Ghost mirror of one ledger account.
pub ghost struct AccountModel {
    pub addr: [u8; 32],
    pub busy: bool,
    pub data: AccountDataModel,
}

/// Ghost mirror of the whole ledger.
pub ghost struct LedgerModel {
    pub registered: Seq<RegisteredCircuit>,
    pub accounts: Seq<AccountModel>,
    pub comps: Seq<CompRecord>,
    pub events: Seq<LedgerEvent>,
}

impl View for AccountData {
    type V = AccountDataModel;

    open spec fn view(&self) -> AccountDataModel {
        match *self {
            AccountData::Balance(a) => AccountDataModel::Balance {
                owner: a.owner,
                bump: a.bump,
                blob: a.balance_state@,
                enc_nonce: a.nonce,
            },
            AccountData::SwapPool(a) => AccountDataModel::SwapPool {
                owner: a.owner,
                bump: a.bump,
                token_a_mint: a.token_a_mint,
                token_b_mint: a.token_b_mint,
                blob: a.swap_state@,
                enc_nonce: a.nonce,
            },
            AccountData::OrderBook(a) => AccountDataModel::OrderBook {
                owner: a.owner,
                bump: a.bump,
                pair: a.pair,
                blob: a.order_book_state@,
                enc_nonce: a.nonce,
            },
        }
    }
}

impl View for AccountRecord {
    type V = AccountModel;

    open spec fn view(&self) -> AccountModel {
        AccountModel { addr: self.addr, busy: self.busy, data: self.data@ }
    }
}

/// The public ledger: registered compute definitions, accounts holding
/// ciphertext, recorded computations, and emitted events.
pub struct Ledger {
    pub registered: Vec<RegisteredCircuit>,
    pub accounts: Vec<AccountRecord>,
    pub comps: Vec<CompRecord>,
    pub events: Vec<LedgerEvent>,
}

impl View for Ledger {
    type V = LedgerModel;

    open spec fn view(&self) -> LedgerModel {
        LedgerModel {
            registered: self.registered@,
            accounts: Seq::new(self.accounts@.len(), |i: int| self.accounts@[i]@),
            comps: self.comps@,
            events: self.events@,
        }
    }
}

/// The owner recorded in a state record.
pub open spec fn model_owner(d: AccountDataModel) -> u64 {
    match d {
        AccountDataModel::Balance { owner, .. } => owner,
        AccountDataModel::SwapPool { owner, .. } => owner,
        AccountDataModel::OrderBook { owner, .. } => owner,
    }
}

/// The stored encrypted blob of a state record.
pub open spec fn model_blob(d: AccountDataModel) -> Seq<u8> {
    match d {
        AccountDataModel::Balance { blob, .. } => blob,
        AccountDataModel::SwapPool { blob, .. } => blob,
        AccountDataModel::OrderBook { blob, .. } => blob,
    }
}

/// The stored encryption nonce of a state record.
pub open spec fn model_enc_nonce(d: AccountDataModel) -> u128 {
    match d {
        AccountDataModel::Balance { enc_nonce, .. } => enc_nonce,
        AccountDataModel::SwapPool { enc_nonce, .. } => enc_nonce,
        AccountDataModel::OrderBook { enc_nonce, .. } => enc_nonce,
    }
}

/// A state record with its blob and encryption nonce replaced in full.
pub open spec fn model_with_output(d: AccountDataModel, blob: Seq<u8>, enc_nonce: u128) -> AccountDataModel {
    match d {
        AccountDataModel::Balance { owner, bump, .. } => AccountDataModel::Balance {
            owner,
            bump,
            blob,
            enc_nonce,
        },
        AccountDataModel::SwapPool { owner, bump, token_a_mint, token_b_mint, .. } =>
            AccountDataModel::SwapPool { owner, bump, token_a_mint, token_b_mint, blob, enc_nonce },
        AccountDataModel::OrderBook { owner, bump, pair, .. } => AccountDataModel::OrderBook {
            owner,
            bump,
            pair,
            blob,
            enc_nonce,
        },
    }
}

/// Whether a compute definition for this circuit is registered.
pub open spec fn has_circuit(regs: Seq<RegisteredCircuit>, kind: CircuitKind) -> bool {
    exists|i: int| 0 <= i < regs.len() && (#[trigger] regs[i]).circuit == kind
}

/// Whether some computation is recorded under this correlation id.
pub open spec fn comp_with_id(comps: Seq<CompRecord>, correlation_id: u64) -> bool {
    exists|i: int| 0 <= i < comps.len() && (#[trigger] comps[i]).correlation_id == correlation_id
}

/// The index of the computation recorded under this correlation id.
pub open spec fn comp_idx(comps: Seq<CompRecord>, correlation_id: u64) -> int {
    choose|i: int| 0 <= i < comps.len() && (#[trigger] comps[i]).correlation_id == correlation_id
}

/// Which state type each circuit reads and writes.
pub open spec fn circuit_account_ok(kind: CircuitKind, d: AccountDataModel) -> bool {
    match kind {
        CircuitKind::InitBalance => d is Balance,
        CircuitKind::Deposit => d is Balance,
        CircuitKind::ExecuteSwap => d is SwapPool,
        CircuitKind::PlaceOrder => d is OrderBook,
        CircuitKind::MatchOrders => d is OrderBook,
    }
}

/// How many encrypted outputs each circuit declares beyond its new state.
pub open spec fn extra_outputs(kind: CircuitKind) -> int {
    match kind {
        CircuitKind::InitBalance => 0,
        CircuitKind::Deposit => 0,
        CircuitKind::ExecuteSwap => 1,
        CircuitKind::PlaceOrder => 0,
        CircuitKind::MatchOrders => 2,
    }
}

/// Whether a bundle's structural shape matches the circuit's declared
/// return type: a full state ciphertext and the declared number of
/// further outputs.
pub open spec fn bundle_shape_ok(b: OutputBundle, kind: CircuitKind) -> bool {
    b.state_ciphertext@.len() >= 64 && b.extra_ciphertexts@.len() == extra_outputs(kind)
}

/// Well-formedness of the ledger: correlation ids are unique, every
/// recorded computation targets a live account of the right state type,
/// every stored blob is exactly 64 bytes, and the per-account lock
/// discipline holds — every queued computation holds its target
/// account's lock, and no two queued computations target the same
/// account, so per-account read-modify-write races are impossible.
pub open spec fn wf(m: LedgerModel) -> bool {
    &&& forall|i: int, j: int|
        0 <= i < j < m.comps.len() ==> (#[trigger] m.comps[i]).correlation_id != (
        #[trigger] m.comps[j]).correlation_id
    &&& forall|i: int|
        0 <= i < m.comps.len() ==> (#[trigger] m.comps[i]).account_index < m.accounts.len()
    &&& forall|i: int|
        0 <= i < m.comps.len() ==> circuit_account_ok(
            (#[trigger] m.comps[i]).circuit,
            m.accounts[m.comps[i].account_index as int].data,
        )
    &&& forall|i: int|
        0 <= i < m.accounts.len() ==> model_blob((#[trigger] m.accounts[i]).data).len() == 64
    &&& forall|i: int|
        0 <= i < m.comps.len() && (#[trigger] m.comps[i]).status is Queued
            ==> m.accounts[m.comps[i].account_index as int].busy
    &&& forall|i: int, j: int|
        0 <= i < m.comps.len() && 0 <= j < m.comps.len() && (#[trigger] m.comps[i]).status
            is Queued && (#[trigger] m.comps[j]).status is Queued && m.comps[i].account_index
            == m.comps[j].account_index ==> i == j
}

/// Registration: record the circuit's definition offset once; registering
/// an already-registered circuit changes nothing.
pub open spec fn register_spec(m: LedgerModel, kind: CircuitKind) -> LedgerModel {
    if has_circuit(m.registered, kind) {
        m
    } else {
        LedgerModel {
            registered: m.registered.push(
                RegisteredCircuit {
                    circuit: kind,
                    offset: comp_def_offset_of(circuit_name_spec(kind)),
                },
            ),
            accounts: m.accounts,
            comps: m.comps,
            events: m.events,
        }
    }
}

/// The submission checks shared by every queue operation, in order:
/// registered circuit, fresh correlation id, live account, matching state
/// type, free lock.
pub open spec fn queue_err(m: LedgerModel, kind: CircuitKind, correlation_id: u64, account_index: usize) -> Option<ErrorCode> {
    if !has_circuit(m.registered, kind) {
        Some(ErrorCode::UnknownCircuit)
    } else if comp_with_id(m.comps, correlation_id) {
        Some(ErrorCode::DuplicateCorrelationId)
    } else if account_index >= m.accounts.len() {
        Some(ErrorCode::UnknownAccount)
    } else if !circuit_account_ok(kind, m.accounts[account_index as int].data) {
        Some(ErrorCode::MismatchedAccount)
    } else if m.accounts[account_index as int].busy {
        Some(ErrorCode::AccountBusy)
    } else {
        None
    }
}

/// The ledger after a queue operation commits: the account is locked and
/// the computation is recorded as queued.
pub open spec fn queued_model(m: LedgerModel, kind: CircuitKind, correlation_id: u64, account_index: usize) -> LedgerModel {
    let acct = m.accounts[account_index as int];
    LedgerModel {
        registered: m.registered,
        accounts: m.accounts.update(
            account_index as int,
            AccountModel { addr: acct.addr, busy: true, data: acct.data },
        ),
        comps: m.comps.push(
            CompRecord { correlation_id, circuit: kind, account_index, status: CompStatus::Queued },
        ),
        events: m.events,
    }
}

/// Account creation combined with queueing `init_balance`: the account is
/// appended with a zeroed blob and locked, and the computation recorded.
pub open spec fn create_balance_spec(
    m: LedgerModel,
    caller: u64,
    addr: [u8; 32],
    bump: u8,
    correlation_id: u64,
    enc_nonce: u128,
) -> (LedgerModel, Result<(), ErrorCode>) {
    if !has_circuit(m.registered, CircuitKind::InitBalance) {
        (m, Err(ErrorCode::UnknownCircuit))
    } else if comp_with_id(m.comps, correlation_id) {
        (m, Err(ErrorCode::DuplicateCorrelationId))
    } else {
        let acct = AccountModel {
            addr,
            busy: true,
            data: AccountDataModel::Balance {
                owner: caller,
                bump,
                blob: Seq::new(64, |i: int| 0u8),
                enc_nonce,
            },
        };
        let rec = CompRecord {
            correlation_id,
            circuit: CircuitKind::InitBalance,
            account_index: m.accounts.len() as usize,
            status: CompStatus::Queued,
        };
        (
            LedgerModel {
                registered: m.registered,
                accounts: m.accounts.push(acct),
                comps: m.comps.push(rec),
                events: m.events,
            },
            Ok(()),
        )
    }
}

/// Queueing `deposit`: the shared checks plus the authorization check
/// that the caller owns the balance account.
pub open spec fn queue_deposit_spec(m: LedgerModel, caller: u64, account_index: usize, correlation_id: u64) -> (LedgerModel, Result<(), ErrorCode>) {
    if !has_circuit(m.registered, CircuitKind::Deposit) {
        (m, Err(ErrorCode::UnknownCircuit))
    } else if comp_with_id(m.comps, correlation_id) {
        (m, Err(ErrorCode::DuplicateCorrelationId))
    } else if account_index >= m.accounts.len() {
        (m, Err(ErrorCode::UnknownAccount))
    } else if !(m.accounts[account_index as int].data is Balance) {
        (m, Err(ErrorCode::MismatchedAccount))
    } else if model_owner(m.accounts[account_index as int].data) != caller {
        (m, Err(ErrorCode::InvalidAuthority))
    } else if m.accounts[account_index as int].busy {
        (m, Err(ErrorCode::AccountBusy))
    } else {
        (queued_model(m, CircuitKind::Deposit, correlation_id, account_index), Ok(()))
    }
}

/// Queueing one of the circuits that need no authorization check.
pub open spec fn queue_spec(m: LedgerModel, kind: CircuitKind, correlation_id: u64, account_index: usize) -> (LedgerModel, Result<(), ErrorCode>) {
    match queue_err(m, kind, correlation_id, account_index) {
        Some(e) => (m, Err(e)),
        None => (queued_model(m, kind, correlation_id, account_index), Ok(())),
    }
}

/// The ledger after a callback terminates a computation without applying
/// state: the record is aborted and the account lock released.
pub open spec fn aborted_model(m: LedgerModel, ci: int, account_index: int) -> LedgerModel {
    let rec = m.comps[ci];
    let acct = m.accounts[account_index];
    LedgerModel {
        registered: m.registered,
        accounts: m.accounts.update(
            account_index,
            AccountModel { addr: acct.addr, busy: false, data: acct.data },
        ),
        comps: m.comps.update(
            ci,
            CompRecord {
                correlation_id: rec.correlation_id,
                circuit: rec.circuit,
                account_index: rec.account_index,
                status: CompStatus::Aborted,
            },
        ),
        events: m.events,
    }
}

/// The event a successful application appends.
pub open spec fn event_spec(kind: CircuitKind, acct: AccountModel, bundle: OutputBundle, now: i64) -> LedgerEvent {
    match kind {
        CircuitKind::InitBalance => LedgerEvent::BalanceAccountCreated(
            BalanceAccountCreated { owner: model_owner(acct.data), timestamp: now },
        ),
        CircuitKind::Deposit => LedgerEvent::DepositCompleted(
            DepositCompleted { owner: model_owner(acct.data), timestamp: now },
        ),
        CircuitKind::ExecuteSwap => LedgerEvent::SwapExecuted(
            SwapExecuted {
                pool: acct.addr,
                output_amount: bundle.extra_ciphertexts@[0],
                timestamp: now,
            },
        ),
        CircuitKind::PlaceOrder => LedgerEvent::OrderPlaced(
            OrderPlaced { order_book: acct.addr, timestamp: now },
        ),
        CircuitKind::MatchOrders => LedgerEvent::OrdersMatched(
            OrdersMatched { order_book: acct.addr, timestamp: now },
        ),
    }
}

/// The ledger after a verified output is committed: the account's blob is
/// overwritten in full by the output's first 64 ciphertext bytes, its
/// encryption nonce replaced, the lock released, the record completed,
/// and the circuit's event appended.
pub open spec fn applied_model(m: LedgerModel, ci: int, bundle: OutputBundle, now: i64) -> LedgerModel {
    let rec = m.comps[ci];
    let ai = rec.account_index as int;
    let acct = m.accounts[ai];
    let new_acct = AccountModel {
        addr: acct.addr,
        busy: false,
        data: model_with_output(acct.data, bundle.state_ciphertext@.subrange(0, 64), bundle.ledger_nonce),
    };
    LedgerModel {
        registered: m.registered,
        accounts: m.accounts.update(ai, new_acct),
        comps: m.comps.update(
            ci,
            CompRecord {
                correlation_id: rec.correlation_id,
                circuit: rec.circuit,
                account_index: rec.account_index,
                status: CompStatus::Completed,
            },
        ),
        events: m.events.push(event_spec(rec.circuit, acct, bundle, now)),
    }
}

/// What a callback does, for every possible verdict of the external
/// signature check: an unknown or mismatched correlation id is rejected
/// untouched; a spent record is rejected untouched; a missing or
/// malformed output aborts the computation and releases the lock; a
/// verified, well-shaped output is committed exactly once.
pub open spec fn apply_spec(
    m: LedgerModel,
    expected: CircuitKind,
    correlation_id: u64,
    verdict: Option<OutputBundle>,
    now: i64,
) -> (LedgerModel, Result<(), ErrorCode>) {
    if !comp_with_id(m.comps, correlation_id) {
        (m, Err(ErrorCode::UnknownComputation))
    } else {
        let ci = comp_idx(m.comps, correlation_id);
        let rec = m.comps[ci];
        if rec.circuit != expected {
            (m, Err(ErrorCode::UnknownComputation))
        } else if !(rec.status is Queued) {
            (m, Err(ErrorCode::ComputationAlreadyApplied))
        } else {
            match verdict {
                None => (aborted_model(m, ci, rec.account_index as int), Err(ErrorCode::AbortedComputation)),
                Some(bundle) => {
                    if !bundle_shape_ok(bundle, expected) {
                        (
                            aborted_model(m, ci, rec.account_index as int),
                            Err(ErrorCode::AbortedComputation),
                        )
                    } else {
                        (applied_model(m, ci, bundle, now), Ok(()))
                    }
                },
            }
        }
    }
}

impl Ledger {
    /// An empty ledger.
    pub fn new() -> (r: Ledger)
        ensures
            r@ == (LedgerModel {
                registered: Seq::<RegisteredCircuit>::empty(),
                accounts: Seq::<AccountModel>::empty(),
                comps: Seq::<CompRecord>::empty(),
                events: Seq::<LedgerEvent>::empty(),
            }),
            wf(r@),
    {
        let r = Ledger {
            registered: Vec::new(),
            accounts: Vec::new(),
            comps: Vec::new(),
            events: Vec::new(),
        };
        proof {
            assert(r@.accounts =~= Seq::<AccountModel>::empty());
        }
        r
    }

    /// Whether a compute definition for this circuit is registered.
    fn is_registered(&self, kind: CircuitKind) -> (r: bool)
        ensures
            r == has_circuit(self@.registered, kind),
    {
        let mut i: usize = 0;
        while i < self.registered.len()
            invariant
                i <= self.registered.len(),
                forall|j: int| 0 <= j < i ==> (#[trigger] self.registered@[j]).circuit != kind,
            decreases self.registered.len() - i,
        {
            if self.registered[i].circuit == kind {
                return true;
            }
            i += 1;
        }
        false
    }

    /// The index of the computation recorded under this correlation id.
    fn find_comp(&self, correlation_id: u64) -> (r: Option<usize>)
        ensures
            match r {
                Some(i) => i < self.comps@.len() && self.comps@[i as int].correlation_id
                    == correlation_id,
                None => !comp_with_id(self@.comps, correlation_id),
            },
    {
        let mut i: usize = 0;
        while i < self.comps.len()
            invariant
                i <= self.comps.len(),
                forall|j: int|
                    0 <= j < i ==> (#[trigger] self.comps@[j]).correlation_id != correlation_id,
            decreases self.comps.len() - i,
        {
            if self.comps[i].correlation_id == correlation_id {
                return Some(i);
            }
            i += 1;
        }
        None
    }

    /// Register the compute definition for a circuit, deriving its stable
    /// offset from the circuit name.  Idempotent.
    fn register_circuit(&mut self, kind: CircuitKind)
        requires
            wf(old(self)@),
        ensures
            wf(final(self)@),
            final(self)@ == register_spec(old(self)@, kind),
    {
        if !self.is_registered(kind) {
            let name = circuit_name(kind);
            let offset = comp_def_offset(name);
            self.registered.push(RegisteredCircuit { circuit: kind, offset });
            proof {
                assert(final(self)@.accounts =~= old(self)@.accounts);
            }
        }
    }

    /// Register the `init_balance` compute definition.
    pub fn init_balance_comp_def(&mut self)
        requires
            wf(old(self)@),
        ensures
            wf(final(self)@),
            final(self)@ == register_spec(old(self)@, CircuitKind::InitBalance),
    {
        self.register_circuit(CircuitKind::InitBalance);
    }

    /// Register the `deposit` compute definition.
    pub fn init_deposit_comp_def(&mut self)
        requires
            wf(old(self)@),
        ensures
            wf(final(self)@),
            final(self)@ == register_spec(old(self)@, CircuitKind::Deposit),
    {
        self.register_circuit(CircuitKind::Deposit);
    }

    /// Register the `execute_swap` compute definition.
    pub fn init_execute_swap_comp_def(&mut self)
        requires
            wf(old(self)@),
        ensures
            wf(final(self)@),
            final(self)@ == register_spec(old(self)@, CircuitKind::ExecuteSwap),
    {
        self.register_circuit(CircuitKind::ExecuteSwap);
    }

    /// Register the `place_order` compute definition.
    pub fn init_place_order_comp_def(&mut self)
        requires
            wf(old(self)@),
        ensures
            wf(final(self)@),
            final(self)@ == register_spec(old(self)@, CircuitKind::PlaceOrder),
    {
        self.register_circuit(CircuitKind::PlaceOrder);
    }

    /// Register the `match_orders` compute definition.
    pub fn init_match_orders_comp_def(&mut self)
        requires
            wf(old(self)@),
        ensures
            wf(final(self)@),
            final(self)@ == register_spec(old(self)@, CircuitKind::MatchOrders),
    {
        self.register_circuit(CircuitKind::MatchOrders);
    }

    /// Create a swap-pool account with a zeroed blob and no computation in
    /// flight.  Account derivation and rent are the caller's concern; the
    /// new account's index is handed back.
    pub fn create_swap_pool(
        &mut self,
        owner: u64,
        addr: [u8; 32],
        bump: u8,
        token_a_mint: u64,
        token_b_mint: u64,
        nonce: u128,
    ) -> (r: usize)
        requires
            wf(old(self)@),
        ensures
            wf(final(self)@),
            r == old(self)@.accounts.len(),
            final(self)@ == (LedgerModel {
                accounts: old(self)@.accounts.push(
                    AccountModel {
                        addr,
                        busy: false,
                        data: AccountDataModel::SwapPool {
                            owner,
                            bump,
                            token_a_mint,
                            token_b_mint,
                            blob: Seq::new(64, |i: int| 0u8),
                            enc_nonce: nonce,
                        },
                    },
                ),
                registered: old(self)@.registered,
                comps: old(self)@.comps,
                events: old(self)@.events,
            }),
    {
        let r = self.accounts.len();
        self.accounts.push(
            AccountRecord {
                addr,
                busy: false,
                data: AccountData::SwapPool(
                    SwapPoolAccount {
                        owner,
                        bump,
                        token_a_mint,
                        token_b_mint,
                        swap_state: [0u8; 64],
                        nonce,
                    },
                ),
            },
        );
        proof {
            assert(self@.accounts[r as int].data->SwapPool_blob =~= Seq::new(64, |i: int| 0u8));
            assert(self@.accounts =~= old(self)@.accounts.push(
                AccountModel {
                    addr,
                    busy: false,
                    data: AccountDataModel::SwapPool {
                        owner,
                        bump,
                        token_a_mint,
                        token_b_mint,
                        blob: Seq::new(64, |i: int| 0u8),
                        enc_nonce: nonce,
                    },
                },
            ));
        }
        r
    }

    /// Create an order-book account with a zeroed blob and no computation
    /// in flight.  The new account's index is handed back.
    pub fn create_order_book(
        &mut self,
        owner: u64,
        addr: [u8; 32],
        bump: u8,
        pair: [u8; 32],
        nonce: u128,
    ) -> (r: usize)
        requires
            wf(old(self)@),
        ensures
            wf(final(self)@),
            r == old(self)@.accounts.len(),
            final(self)@ == (LedgerModel {
                accounts: old(self)@.accounts.push(
                    AccountModel {
                        addr,
                        busy: false,
                        data: AccountDataModel::OrderBook {
                            owner,
                            bump,
                            pair,
                            blob: Seq::new(64, |i: int| 0u8),
                            enc_nonce: nonce,
                        },
                    },
                ),
                registered: old(self)@.registered,
                comps: old(self)@.comps,
                events: old(self)@.events,
            }),
    {
        let r = self.accounts.len();
        self.accounts.push(
            AccountRecord {
                addr,
                busy: false,
                data: AccountData::OrderBook(
                    OrderBookAccount { owner, bump, pair, order_book_state: [0u8; 64], nonce },
                ),
            },
        );
        proof {
            assert(self@.accounts[r as int].data->OrderBook_blob =~= Seq::new(64, |i: int| 0u8));
            assert(self@.accounts =~= old(self)@.accounts.push(
                AccountModel {
                    addr,
                    busy: false,
                    data: AccountDataModel::OrderBook {
                        owner,
                        bump,
                        pair,
                        blob: Seq::new(64, |i: int| 0u8),
                        enc_nonce: nonce,
                    },
                },
            ));
        }
        r
    }

    /// Create a private balance account, lock it, and queue its
    /// `init_balance` computation; hands back the request's arguments for
    /// submission to the compute network.
    pub fn create_balance_account(
        &mut self,
        caller: u64,
        addr: [u8; 32],
        bump: u8,
        computation_offset: u64,
        nonce: u128,
    ) -> (r: Result<arcium_anchor::prelude::ArgumentList, ErrorCode>)
        requires
            wf(old(self)@),
        ensures
            wf(final(self)@),
            ({
                let (m2, res) = create_balance_spec(
                    old(self)@,
                    caller,
                    addr,
                    bump,
                    computation_offset,
                    nonce,
                );
                &&& final(self)@ == m2
                &&& (r is Ok <==> res is Ok)
                &&& (r is Err ==> res is Err && r->Err_0 == res->Err_0)
                &&& (r is Ok ==> args_of(r->Ok_0) == init_balance_args(nonce))
            }),
    {
        if !self.is_registered(CircuitKind::InitBalance) {
            return Err(ErrorCode::UnknownCircuit);
        }
        match self.find_comp(computation_offset) {
            Some(_) => {
                return Err(ErrorCode::DuplicateCorrelationId);
            },
            None => {},
        }
        let account_index = self.accounts.len();
        self.accounts.push(
            AccountRecord {
                addr,
                busy: true,
                data: AccountData::Balance(
                    PrivateBalanceAccount { owner: caller, bump, balance_state: [0u8; 64], nonce },
                ),
            },
        );
        self.comps.push(
            CompRecord {
                correlation_id: computation_offset,
                circuit: CircuitKind::InitBalance,
                account_index,
                status: CompStatus::Queued,
            },
        );
        proof {
            assert(self@.accounts[account_index as int].data->Balance_blob =~= Seq::new(
                64,
                |i: int| 0u8,
            ));
            assert(self@.accounts =~= old(self)@.accounts.push(
                AccountModel {
                    addr,
                    busy: true,
                    data: AccountDataModel::Balance {
                        owner: caller,
                        bump,
                        blob: Seq::new(64, |i: int| 0u8),
                        enc_nonce: nonce,
                    },
                },
            ));
        }
        Ok(build_init_balance_args(nonce))
    }

    /// The shared queue transition: run the submission checks, lock the
    /// account, and record the computation.
    fn queue_computation(&mut self, kind: CircuitKind, correlation_id: u64, account_index: usize) -> (r:
        Result<(), ErrorCode>)
        requires
            wf(old(self)@),
        ensures
            wf(final(self)@),
            ({
                let (m2, res) = queue_spec(old(self)@, kind, correlation_id, account_index);
                final(self)@ == m2 && r == res
            }),
    {
        if !self.is_registered(kind) {
            return Err(ErrorCode::UnknownCircuit);
        }
        match self.find_comp(correlation_id) {
            Some(_) => {
                return Err(ErrorCode::DuplicateCorrelationId);
            },
            None => {},
        }
        if account_index >= self.accounts.len() {
            return Err(ErrorCode::UnknownAccount);
        }
        let data_ok: bool = match kind {
            CircuitKind::InitBalance => matches!(
                &self.accounts[account_index].data,
                AccountData::Balance(_)
            ),
            CircuitKind::Deposit => matches!(
                &self.accounts[account_index].data,
                AccountData::Balance(_)
            ),
            CircuitKind::ExecuteSwap => matches!(
                &self.accounts[account_index].data,
                AccountData::SwapPool(_)
            ),
            CircuitKind::PlaceOrder => matches!(
                &self.accounts[account_index].data,
                AccountData::OrderBook(_)
            ),
            CircuitKind::MatchOrders => matches!(
                &self.accounts[account_index].data,
                AccountData::OrderBook(_)
            ),
        };
        if !data_ok {
            return Err(ErrorCode::MismatchedAccount);
        }
        if self.accounts[account_index].busy {
            return Err(ErrorCode::AccountBusy);
        }
        let mut acct = self.accounts[account_index];
        acct.busy = true;
        self.accounts.set(account_index, acct);
        self.comps.push(
            CompRecord { correlation_id, circuit: kind, account_index, status: CompStatus::Queued },
        );
        proof {
            assert(self@.accounts =~= queued_model(
                old(self)@,
                kind,
                correlation_id,
                account_index,
            ).accounts);
        }
        Ok(())
    }

    /// Queue a `deposit` computation against a balance account the caller
    /// owns; hands back the request's arguments, which reference the
    /// stored ciphertext and carry its current encryption nonce.
    pub fn deposit_funds(
        &mut self,
        caller: u64,
        account_index: usize,
        computation_offset: u64,
        amount: u64,
    ) -> (r: Result<arcium_anchor::prelude::ArgumentList, ErrorCode>)
        requires
            wf(old(self)@),
        ensures
            wf(final(self)@),
            ({
                let (m2, res) = queue_deposit_spec(old(self)@, caller, account_index, computation_offset);
                &&& final(self)@ == m2
                &&& (r is Ok <==> res is Ok)
                &&& (r is Err ==> res is Err && r->Err_0 == res->Err_0)
                &&& (r is Ok ==> args_of(r->Ok_0) == deposit_args(
                    amount,
                    model_enc_nonce(old(self)@.accounts[account_index as int].data),
                    old(self)@.accounts[account_index as int].addr,
                ))
            }),
    {
        if !self.is_registered(CircuitKind::Deposit) {
            return Err(ErrorCode::UnknownCircuit);
        }
        match self.find_comp(computation_offset) {
            Some(_) => {
                return Err(ErrorCode::DuplicateCorrelationId);
            },
            None => {},
        }
        if account_index >= self.accounts.len() {
            return Err(ErrorCode::UnknownAccount);
        }
        let (owner, enc_nonce) = match &self.accounts[account_index].data {
            AccountData::Balance(b) => (b.owner, b.nonce),
            _ => {
                return Err(ErrorCode::MismatchedAccount);
            },
        };
        if owner != caller {
            return Err(ErrorCode::InvalidAuthority);
        }
        if self.accounts[account_index].busy {
            return Err(ErrorCode::AccountBusy);
        }
        let addr = self.accounts[account_index].addr;
        let mut acct = self.accounts[account_index];
        acct.busy = true;
        self.accounts.set(account_index, acct);
        self.comps.push(
            CompRecord {
                correlation_id: computation_offset,
                circuit: CircuitKind::Deposit,
                account_index,
                status: CompStatus::Queued,
            },
        );
        proof {
            assert(self@.accounts =~= queued_model(
                old(self)@,
                CircuitKind::Deposit,
                computation_offset,
                account_index,
            ).accounts);
        }
        Ok(build_deposit_args(amount, enc_nonce, addr))
    }

    /// Queue an `execute_swap` computation against a pool account; hands
    /// back the request's arguments.
    pub fn execute_swap(
        &mut self,
        account_index: usize,
        computation_offset: u64,
        ciphertext_input: [u8; 32],
        ciphertext_min_output: [u8; 32],
        pub_key: [u8; 32],
        nonce: u128,
    ) -> (r: Result<arcium_anchor::prelude::ArgumentList, ErrorCode>)
        requires
            wf(old(self)@),
        ensures
            wf(final(self)@),
            ({
                let (m2, res) = queue_spec(
                    old(self)@,
                    CircuitKind::ExecuteSwap,
                    computation_offset,
                    account_index,
                );
                &&& final(self)@ == m2
                &&& (r is Ok <==> res is Ok)
                &&& (r is Err ==> res is Err && r->Err_0 == res->Err_0)
                &&& (r is Ok ==> args_of(r->Ok_0) == execute_swap_args(
                    pub_key,
                    nonce,
                    ciphertext_input,
                    ciphertext_min_output,
                    old(self)@.accounts[account_index as int].addr,
                ))
            }),
    {
        match self.queue_computation(CircuitKind::ExecuteSwap, computation_offset, account_index) {
            Err(e) => Err(e),
            Ok(()) => {
                proof {
                    assert(queue_err(
                        old(self)@,
                        CircuitKind::ExecuteSwap,
                        computation_offset,
                        account_index,
                    ) is None);
                    assert(account_index < old(self)@.accounts.len());
                    assert(self@.accounts.len() == old(self)@.accounts.len());
                    assert(self@.accounts[account_index as int].addr == old(
                        self,
                    )@.accounts[account_index as int].addr);
                }
                let addr = self.accounts[account_index].addr;
                Ok(
                    build_execute_swap_args(
                        pub_key,
                        nonce,
                        ciphertext_input,
                        ciphertext_min_output,
                        addr,
                    ),
                )
            },
        }
    }

    /// Queue a `place_order` computation against an order-book account;
    /// hands back the request's arguments.
    pub fn place_order(
        &mut self,
        account_index: usize,
        computation_offset: u64,
        ciphertext_side: [u8; 32],
        ciphertext_size: [u8; 32],
        ciphertext_price: [u8; 32],
        pub_key: [u8; 32],
        nonce: u128,
    ) -> (r: Result<arcium_anchor::prelude::ArgumentList, ErrorCode>)
        requires
            wf(old(self)@),
        ensures
            wf(final(self)@),
            ({
                let (m2, res) = queue_spec(
                    old(self)@,
                    CircuitKind::PlaceOrder,
                    computation_offset,
                    account_index,
                );
                &&& final(self)@ == m2
                &&& (r is Ok <==> res is Ok)
                &&& (r is Err ==> res is Err && r->Err_0 == res->Err_0)
                &&& (r is Ok ==> args_of(r->Ok_0) == place_order_args(
                    pub_key,
                    nonce,
                    ciphertext_side,
                    ciphertext_size,
                    ciphertext_price,
                    old(self)@.accounts[account_index as int].addr,
                ))
            }),
    {
        match self.queue_computation(CircuitKind::PlaceOrder, computation_offset, account_index) {
            Err(e) => Err(e),
            Ok(()) => {
                proof {
                    assert(queue_err(
                        old(self)@,
                        CircuitKind::PlaceOrder,
                        computation_offset,
                        account_index,
                    ) is None);
                    assert(account_index < old(self)@.accounts.len());
                    assert(self@.accounts.len() == old(self)@.accounts.len());
                    assert(self@.accounts[account_index as int].addr == old(
                        self,
                    )@.accounts[account_index as int].addr);
                }
                let addr = self.accounts[account_index].addr;
                Ok(
                    build_place_order_args(
                        pub_key,
                        nonce,
                        ciphertext_side,
                        ciphertext_size,
                        ciphertext_price,
                        addr,
                    ),
                )
            },
        }
    }

    /// Queue a `match_orders` computation against an order-book account;
    /// hands back the request's arguments.
    pub fn match_orders(
        &mut self,
        account_index: usize,
        computation_offset: u64,
        ciphertext_buy_side: [u8; 32],
        ciphertext_buy_size: [u8; 32],
        ciphertext_buy_price: [u8; 32],
        ciphertext_sell_side: [u8; 32],
        ciphertext_sell_size: [u8; 32],
        ciphertext_sell_price: [u8; 32],
        pub_key: [u8; 32],
        nonce: u128,
    ) -> (r: Result<arcium_anchor::prelude::ArgumentList, ErrorCode>)
        requires
            wf(old(self)@),
        ensures
            wf(final(self)@),
            ({
                let (m2, res) = queue_spec(
                    old(self)@,
                    CircuitKind::MatchOrders,
                    computation_offset,
                    account_index,
                );
                &&& final(self)@ == m2
                &&& (r is Ok <==> res is Ok)
                &&& (r is Err ==> res is Err && r->Err_0 == res->Err_0)
                &&& (r is Ok ==> args_of(r->Ok_0) == match_orders_args(
                    pub_key,
                    nonce,
                    ciphertext_buy_side,
                    ciphertext_buy_size,
                    ciphertext_buy_price,
                    ciphertext_sell_side,
                    ciphertext_sell_size,
                    ciphertext_sell_price,
                    old(self)@.accounts[account_index as int].addr,
                ))
            }),
    {
        match self.queue_computation(CircuitKind::MatchOrders, computation_offset, account_index) {
            Err(e) => Err(e),
            Ok(()) => {
                proof {
                    assert(queue_err(
                        old(self)@,
                        CircuitKind::MatchOrders,
                        computation_offset,
                        account_index,
                    ) is None);
                    assert(account_index < old(self)@.accounts.len());
                    assert(self@.accounts.len() == old(self)@.accounts.len());
                    assert(self@.accounts[account_index as int].addr == old(
                        self,
                    )@.accounts[account_index as int].addr);
                }
                let addr = self.accounts[account_index].addr;
                Ok(
                    build_match_orders_args(
                        pub_key,
                        nonce,
                        ciphertext_buy_side,
                        ciphertext_buy_size,
                        ciphertext_buy_price,
                        ciphertext_sell_side,
                        ciphertext_sell_size,
                        ciphertext_sell_price,
                        addr,
                    ),
                )
            },
        }
    }

    /// The owner recorded in a state record.
    fn account_owner(d: &AccountData) -> (r: u64)
        ensures
            r == model_owner(d@),
    {
        match d {
            AccountData::Balance(b) => b.owner,
            AccountData::SwapPool(p) => p.owner,
            AccountData::OrderBook(o) => o.owner,
        }
    }

    /// Terminate a computation without applying state: mark the record
    /// aborted and release the account lock.
    fn abort_comp(&mut self, ci: usize, ai: usize)
        requires
            wf(old(self)@),
            ci < old(self)@.comps.len(),
            ai == old(self)@.comps[ci as int].account_index,
            old(self)@.comps[ci as int].status is Queued,
        ensures
            wf(final(self)@),
            final(self)@ == aborted_model(old(self)@, ci as int, ai as int),
    {
        let mut acct = self.accounts[ai];
        acct.busy = false;
        self.accounts.set(ai, acct);
        let mut rec = self.comps[ci];
        rec.status = CompStatus::Aborted;
        self.comps.set(ci, rec);
        proof {
            assert(self@.accounts =~= aborted_model(old(self)@, ci as int, ai as int).accounts);
        }
    }

    /// The shared verify-and-apply transition behind every callback.
    ///
    /// `verdict` is what the external signature check made of the signed
    /// output bundle: the verified plaintext bundle, or nothing.  Whatever
    /// it is, an unknown, mismatched or spent correlation id leaves the
    /// ledger untouched; an absent or malformed output aborts the
    /// computation; a verified, well-shaped output is committed in full,
    /// exactly once, and emits the circuit's event.
    fn apply_callback(
        &mut self,
        expected: CircuitKind,
        correlation_id: u64,
        verdict: Option<OutputBundle>,
        now: i64,
    ) -> (r: Result<(), ErrorCode>)
        requires
            wf(old(self)@),
        ensures
            wf(final(self)@),
            ({
                let (m2, res) = apply_spec(old(self)@, expected, correlation_id, verdict, now);
                final(self)@ == m2 && r == res
            }),
    {
        let ci = match self.find_comp(correlation_id) {
            None => {
                return Err(ErrorCode::UnknownComputation);
            },
            Some(i) => i,
        };
        proof {
            assert(comp_with_id(self@.comps, correlation_id));
            let j = comp_idx(self@.comps, correlation_id);
            assert(0 <= j < self@.comps.len() && self@.comps[j].correlation_id == correlation_id);
            if ci as int != j {
                assert(self@.comps[ci as int].correlation_id != self@.comps[j].correlation_id);
            }
            assert(ci as int == j);
        }
        let rec = self.comps[ci];
        if rec.circuit != expected {
            return Err(ErrorCode::UnknownComputation);
        }
        if rec.status != CompStatus::Queued {
            return Err(ErrorCode::ComputationAlreadyApplied);
        }
        let ai = rec.account_index;
        match verdict {
            None => {
                self.abort_comp(ci, ai);
                Err(ErrorCode::AbortedComputation)
            },
            Some(bundle) => {
                let extra_needed: usize = match expected {
                    CircuitKind::InitBalance => 0,
                    CircuitKind::Deposit => 0,
                    CircuitKind::ExecuteSwap => 1,
                    CircuitKind::PlaceOrder => 0,
                    CircuitKind::MatchOrders => 2,
                };
                if bundle.state_ciphertext.len() < 64 || bundle.extra_ciphertexts.len()
                    != extra_needed {
                    self.abort_comp(ci, ai);
                    return Err(ErrorCode::AbortedComputation);
                }
                let mut blob = [0u8; 64];
                let mut k: usize = 0;
                while k < 64
                    invariant
                        k <= 64,
                        bundle.state_ciphertext@.len() >= 64,
                        forall|t: int| 0 <= t < k ==> blob@[t] == bundle.state_ciphertext@[t],
                    decreases 64 - k,
                {
                    blob[k] = bundle.state_ciphertext[k];
                    k += 1;
                }
                let mut acct = self.accounts[ai];
                let ev = match expected {
                    CircuitKind::InitBalance => LedgerEvent::BalanceAccountCreated(
                        BalanceAccountCreated {
                            owner: Self::account_owner(&acct.data),
                            timestamp: now,
                        },
                    ),
                    CircuitKind::Deposit => LedgerEvent::DepositCompleted(
                        DepositCompleted {
                            owner: Self::account_owner(&acct.data),
                            timestamp: now,
                        },
                    ),
                    CircuitKind::ExecuteSwap => LedgerEvent::SwapExecuted(
                        SwapExecuted {
                            pool: acct.addr,
                            output_amount: bundle.extra_ciphertexts[0],
                            timestamp: now,
                        },
                    ),
                    CircuitKind::PlaceOrder => LedgerEvent::OrderPlaced(
                        OrderPlaced { order_book: acct.addr, timestamp: now },
                    ),
                    CircuitKind::MatchOrders => LedgerEvent::OrdersMatched(
                        OrdersMatched { order_book: acct.addr, timestamp: now },
                    ),
                };
                let new_data = match acct.data {
                    AccountData::Balance(b) => AccountData::Balance(
                        PrivateBalanceAccount {
                            owner: b.owner,
                            bump: b.bump,
                            balance_state: blob,
                            nonce: bundle.ledger_nonce,
                        },
                    ),
                    AccountData::SwapPool(p) => AccountData::SwapPool(
                        SwapPoolAccount {
                            owner: p.owner,
                            bump: p.bump,
                            token_a_mint: p.token_a_mint,
                            token_b_mint: p.token_b_mint,
                            swap_state: blob,
                            nonce: bundle.ledger_nonce,
                        },
                    ),
                    AccountData::OrderBook(o) => AccountData::OrderBook(
                        OrderBookAccount {
                            owner: o.owner,
                            bump: o.bump,
                            pair: o.pair,
                            order_book_state: blob,
                            nonce: bundle.ledger_nonce,
                        },
                    ),
                };
                acct.busy = false;
                acct.data = new_data;
                self.accounts.set(ai, acct);
                let mut rec2 = rec;
                rec2.status = CompStatus::Completed;
                self.comps.set(ci, rec2);
                self.events.push(ev);
                proof {
                    assert(blob@ =~= bundle.state_ciphertext@.subrange(0, 64));
                    assert(self@.accounts =~= applied_model(
                        old(self)@,
                        ci as int,
                        bundle,
                        now,
                    ).accounts);
                    assert(ev == event_spec(
                        expected,
                        old(self)@.accounts[ai as int],
                        bundle,
                        now,
                    ));
                }
                Ok(())
            },
        }
    }

    /// Callback of the `init_balance` computation.
    pub fn init_balance_callback(
        &mut self,
        correlation_id: u64,
        verdict: Option<OutputBundle>,
        now: i64,
    ) -> (r: Result<(), ErrorCode>)
        requires
            wf(old(self)@),
        ensures
            wf(final(self)@),
            ({
                let (m2, res) = apply_spec(
                    old(self)@,
                    CircuitKind::InitBalance,
                    correlation_id,
                    verdict,
                    now,
                );
                final(self)@ == m2 && r == res
            }),
    {
        self.apply_callback(CircuitKind::InitBalance, correlation_id, verdict, now)
    }

    /// Callback of the `deposit` computation.
    pub fn deposit_callback(
        &mut self,
        correlation_id: u64,
        verdict: Option<OutputBundle>,
        now: i64,
    ) -> (r: Result<(), ErrorCode>)
        requires
            wf(old(self)@),
        ensures
            wf(final(self)@),
            ({
                let (m2, res) = apply_spec(
                    old(self)@,
                    CircuitKind::Deposit,
                    correlation_id,
                    verdict,
                    now,
                );
                final(self)@ == m2 && r == res
            }),
    {
        self.apply_callback(CircuitKind::Deposit, correlation_id, verdict, now)
    }

    /// Callback of the `execute_swap` computation.
    pub fn execute_swap_callback(
        &mut self,
        correlation_id: u64,
        verdict: Option<OutputBundle>,
        now: i64,
    ) -> (r: Result<(), ErrorCode>)
        requires
            wf(old(self)@),
        ensures
            wf(final(self)@),
            ({
                let (m2, res) = apply_spec(
                    old(self)@,
                    CircuitKind::ExecuteSwap,
                    correlation_id,
                    verdict,
                    now,
                );
                final(self)@ == m2 && r == res
            }),
    {
        self.apply_callback(CircuitKind::ExecuteSwap, correlation_id, verdict, now)
    }

    /// Callback of the `place_order` computation.
    pub fn place_order_callback(
        &mut self,
        correlation_id: u64,
        verdict: Option<OutputBundle>,
        now: i64,
    ) -> (r: Result<(), ErrorCode>)
        requires
            wf(old(self)@),
        ensures
            wf(final(self)@),
            ({
                let (m2, res) = apply_spec(
                    old(self)@,
                    CircuitKind::PlaceOrder,
                    correlation_id,
                    verdict,
                    now,
                );
                final(self)@ == m2 && r == res
            }),
    {
        self.apply_callback(CircuitKind::PlaceOrder, correlation_id, verdict, now)
    }

    /// Callback of the `match_orders` computation.
    pub fn match_orders_callback(
        &mut self,
        correlation_id: u64,
        verdict: Option<OutputBundle>,
        now: i64,
    ) -> (r: Result<(), ErrorCode>)
        requires
            wf(old(self)@),
        ensures
            wf(final(self)@),
            ({
                let (m2, res) = apply_spec(
                    old(self)@,
                    CircuitKind::MatchOrders,
                    correlation_id,
                    verdict,
                    now,
                );
                final(self)@ == m2 && r == res
            }),
    {
        self.apply_callback(CircuitKind::MatchOrders, correlation_id, verdict, now)
    }
}

} // verus!
