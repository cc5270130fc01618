//! Computation-request builder.
//!
//! A queued computation names a circuit and carries an ordered argument
//! list: public scalars, encrypted scalars (32-byte ciphertexts with their
//! public key and nonce), and references to stored account ciphertext.
//! The list is assembled by the compute network's own builder, so the
//! wire encoding stays its concern; this module pins down exactly which
//! arguments stand in the list and in what order.

use vstd::prelude::*;

verus! {

/// The closed set of circuits this ledger can queue.
#[derive(Clone, Copy, PartialEq, Eq, Structural, Debug)]
pub enum CircuitKind {
    InitBalance,
    Deposit,
    ExecuteSwap,
    PlaceOrder,
    MatchOrders,
}

/// The stable name a circuit is registered under.
pub open spec fn circuit_name_spec(kind: CircuitKind) -> Seq<char> {
    match kind {
        CircuitKind::InitBalance => "init_balance"@,
        CircuitKind::Deposit => "deposit"@,
        CircuitKind::ExecuteSwap => "execute_swap"@,
        CircuitKind::PlaceOrder => "place_order"@,
        CircuitKind::MatchOrders => "match_orders"@,
    }
}

/// The stable name a circuit is registered under.
pub fn circuit_name(kind: CircuitKind) -> (r: &'static str)
    ensures
        r@ == circuit_name_spec(kind),
{
    match kind {
        CircuitKind::InitBalance => "init_balance",
        CircuitKind::Deposit => "deposit",
        CircuitKind::ExecuteSwap => "execute_swap",
        CircuitKind::PlaceOrder => "place_order",
        CircuitKind::MatchOrders => "match_orders",
    }
}

/// One argument of a computation request, as the ledger sees it.
#[derive(Clone, Copy, Debug)]
pub enum Arg {
    /// Public 64-bit scalar.
    PlaintextU64(u64),
    /// Public 128-bit scalar (the encryption nonce travels this way).
    PlaintextU128(u128),
    /// Ciphertext of an encrypted 8-bit value.
    EncryptedU8([u8; 32]),
    /// Ciphertext of an encrypted 64-bit value.
    EncryptedU64([u8; 32]),
    /// The caller's encryption public key.
    X25519Pubkey([u8; 32]),
    /// A byte range of a live account's stored data.
    AccountRef { key: [u8; 32], offset: u32, length: u32 },
}

/// Byte offset of the 64-byte state blob inside a stored account record:
/// discriminator, owner, bump come first.
pub const ACCOUNT_STATE_OFFSET: u32 = 8 + 32 + 1;

/// Byte length of the referenced state blob.
pub const ACCOUNT_STATE_LENGTH: u32 = 64;

#[verifier::external_type_specification]
#[verifier::external_body]
pub struct ExArgBuilder(arcium_anchor::ArgBuilder);

#[verifier::external_type_specification]
#[verifier::external_body]
pub struct ExArgumentList(arcium_anchor::prelude::ArgumentList);

/// The arguments a builder has accumulated, in order.
pub uninterp spec fn builder_args(b: arcium_anchor::ArgBuilder) -> Seq<Arg>;

/// The arguments a finished list carries, in order.
pub uninterp spec fn args_of(l: arcium_anchor::prelude::ArgumentList) -> Seq<Arg>;

/// Relies on arcium_anchor::ArgBuilder::new: a fresh builder holds no
/// arguments.
#[verifier::external_body]
fn ab_new() -> (r: arcium_anchor::ArgBuilder)
    ensures
        builder_args(r) == Seq::<Arg>::empty(),
{
    arcium_anchor::ArgBuilder::new()
}

/// Relies on ArgBuilder::plaintext_u64: appends one public u64 argument.
#[verifier::external_body]
fn ab_plaintext_u64(b: arcium_anchor::ArgBuilder, v: u64) -> (r: arcium_anchor::ArgBuilder)
    ensures
        builder_args(r) == builder_args(b).push(Arg::PlaintextU64(v)),
{
    b.plaintext_u64(v)
}

/// Relies on ArgBuilder::plaintext_u128: appends one public u128 argument.
#[verifier::external_body]
fn ab_plaintext_u128(b: arcium_anchor::ArgBuilder, v: u128) -> (r: arcium_anchor::ArgBuilder)
    ensures
        builder_args(r) == builder_args(b).push(Arg::PlaintextU128(v)),
{
    b.plaintext_u128(v)
}

/// Relies on ArgBuilder::encrypted_u8: appends one encrypted u8 ciphertext.
#[verifier::external_body]
fn ab_encrypted_u8(b: arcium_anchor::ArgBuilder, ct: [u8; 32]) -> (r: arcium_anchor::ArgBuilder)
    ensures
        builder_args(r) == builder_args(b).push(Arg::EncryptedU8(ct)),
{
    b.encrypted_u8(ct)
}

/// Relies on ArgBuilder::encrypted_u64: appends one encrypted u64
/// ciphertext.
#[verifier::external_body]
fn ab_encrypted_u64(b: arcium_anchor::ArgBuilder, ct: [u8; 32]) -> (r: arcium_anchor::ArgBuilder)
    ensures
        builder_args(r) == builder_args(b).push(Arg::EncryptedU64(ct)),
{
    b.encrypted_u64(ct)
}

/// Relies on ArgBuilder::x25519_pubkey: appends the caller's encryption
/// public key.
#[verifier::external_body]
fn ab_x25519_pubkey(b: arcium_anchor::ArgBuilder, key: [u8; 32]) -> (r: arcium_anchor::ArgBuilder)
    ensures
        builder_args(r) == builder_args(b).push(Arg::X25519Pubkey(key)),
{
    b.x25519_pubkey(key)
}

/// Relies on ArgBuilder::account: appends a reference to a byte range of a
/// stored account, keyed by the account's 32-byte address.
#[verifier::external_body]
fn ab_account(
    b: arcium_anchor::ArgBuilder,
    key: [u8; 32],
    offset: u32,
    length: u32,
) -> (r: arcium_anchor::ArgBuilder)
    ensures
        builder_args(r) == builder_args(b).push(Arg::AccountRef { key, offset, length }),
{
    b.account(anchor_lang::prelude::Pubkey::new_from_array(key), offset, length)
}

/// Relies on ArgBuilder::build: hands back exactly the accumulated list.
#[verifier::external_body]
fn ab_build(b: arcium_anchor::ArgBuilder) -> (r: arcium_anchor::prelude::ArgumentList)
    ensures
        args_of(r) == builder_args(b),
{
    b.build()
}

/// The circuit-definition offset a name derives to.
pub uninterp spec fn comp_def_offset_of(name: Seq<char>) -> u32;

/// Relies on arcium_anchor::comp_def_offset: the offset is the first four
/// little-endian bytes of the SHA-256 digest of the circuit name, a
/// function of the name alone.
#[verifier::external_body]
pub(crate) fn comp_def_offset(name: &str) -> (r: u32)
    ensures
        r == comp_def_offset_of(name@),
{
    arcium_anchor::comp_def_offset(name)
}

/// Argument order `init_balance` declares: the fresh encryption nonce.
pub open spec fn init_balance_args(ledger_nonce: u128) -> Seq<Arg> {
    seq![Arg::PlaintextU128(ledger_nonce)]
}

/// Argument order `deposit` declares: public amount, current encryption
/// nonce, then the stored balance ciphertext.
pub open spec fn deposit_args(amount: u64, ledger_nonce: u128, account: [u8; 32]) -> Seq<Arg> {
    seq![
        Arg::PlaintextU64(amount),
        Arg::PlaintextU128(ledger_nonce),
        Arg::AccountRef { key: account, offset: ACCOUNT_STATE_OFFSET, length: ACCOUNT_STATE_LENGTH },
    ]
}

/// Argument order `execute_swap` declares: the caller's key and nonce, the
/// two encrypted scalars, then the stored pool ciphertext.
pub open spec fn execute_swap_args(
    pub_key: [u8; 32],
    ledger_nonce: u128,
    ciphertext_input: [u8; 32],
    ciphertext_min_output: [u8; 32],
    account: [u8; 32],
) -> Seq<Arg> {
    seq![
        Arg::X25519Pubkey(pub_key),
        Arg::PlaintextU128(ledger_nonce),
        Arg::EncryptedU64(ciphertext_input),
        Arg::EncryptedU64(ciphertext_min_output),
        Arg::AccountRef { key: account, offset: ACCOUNT_STATE_OFFSET, length: ACCOUNT_STATE_LENGTH },
    ]
}

/// Argument order `place_order` declares: the caller's key and nonce, the
/// encrypted side, size and price, then the stored book ciphertext.
pub open spec fn place_order_args(
    pub_key: [u8; 32],
    ledger_nonce: u128,
    ciphertext_side: [u8; 32],
    ciphertext_size: [u8; 32],
    ciphertext_price: [u8; 32],
    account: [u8; 32],
) -> Seq<Arg> {
    seq![
        Arg::X25519Pubkey(pub_key),
        Arg::PlaintextU128(ledger_nonce),
        Arg::EncryptedU8(ciphertext_side),
        Arg::EncryptedU64(ciphertext_size),
        Arg::EncryptedU64(ciphertext_price),
        Arg::AccountRef { key: account, offset: ACCOUNT_STATE_OFFSET, length: ACCOUNT_STATE_LENGTH },
    ]
}

/// Argument order `match_orders` declares: the caller's key and nonce, the
/// six encrypted order scalars, then the stored book ciphertext.
pub open spec fn match_orders_args(
    pub_key: [u8; 32],
    ledger_nonce: u128,
    ciphertext_buy_side: [u8; 32],
    ciphertext_buy_size: [u8; 32],
    ciphertext_buy_price: [u8; 32],
    ciphertext_sell_side: [u8; 32],
    ciphertext_sell_size: [u8; 32],
    ciphertext_sell_price: [u8; 32],
    account: [u8; 32],
) -> Seq<Arg> {
    seq![
        Arg::X25519Pubkey(pub_key),
        Arg::PlaintextU128(ledger_nonce),
        Arg::EncryptedU8(ciphertext_buy_side),
        Arg::EncryptedU64(ciphertext_buy_size),
        Arg::EncryptedU64(ciphertext_buy_price),
        Arg::EncryptedU8(ciphertext_sell_side),
        Arg::EncryptedU64(ciphertext_sell_size),
        Arg::EncryptedU64(ciphertext_sell_price),
        Arg::AccountRef { key: account, offset: ACCOUNT_STATE_OFFSET, length: ACCOUNT_STATE_LENGTH },
    ]
}

/// Assemble the `init_balance` request arguments.
pub fn build_init_balance_args(ledger_nonce: u128) -> (r: arcium_anchor::prelude::ArgumentList)
    ensures
        args_of(r) == init_balance_args(ledger_nonce),
{
    let b = ab_new();
    let b = ab_plaintext_u128(b, ledger_nonce);
    let r = ab_build(b);
    proof {
        assert(args_of(r) =~= init_balance_args(ledger_nonce));
    }
    r
}

/// Assemble the `deposit` request arguments.
pub fn build_deposit_args(amount: u64, ledger_nonce: u128, account: [u8; 32]) -> (r:
    arcium_anchor::prelude::ArgumentList)
    ensures
        args_of(r) == deposit_args(amount, ledger_nonce, account),
{
    let b = ab_new();
    let b = ab_plaintext_u64(b, amount);
    let b = ab_plaintext_u128(b, ledger_nonce);
    let b = ab_account(b, account, ACCOUNT_STATE_OFFSET, ACCOUNT_STATE_LENGTH);
    let r = ab_build(b);
    proof {
        assert(args_of(r) =~= deposit_args(amount, ledger_nonce, account));
    }
    r
}

/// Assemble the `execute_swap` request arguments.
pub fn build_execute_swap_args(
    pub_key: [u8; 32],
    ledger_nonce: u128,
    ciphertext_input: [u8; 32],
    ciphertext_min_output: [u8; 32],
    account: [u8; 32],
) -> (r: arcium_anchor::prelude::ArgumentList)
    ensures
        args_of(r) == execute_swap_args(
            pub_key,
            ledger_nonce,
            ciphertext_input,
            ciphertext_min_output,
            account,
        ),
{
    let b = ab_new();
    let b = ab_x25519_pubkey(b, pub_key);
    let b = ab_plaintext_u128(b, ledger_nonce);
    let b = ab_encrypted_u64(b, ciphertext_input);
    let b = ab_encrypted_u64(b, ciphertext_min_output);
    let b = ab_account(b, account, ACCOUNT_STATE_OFFSET, ACCOUNT_STATE_LENGTH);
    let r = ab_build(b);
    proof {
        assert(args_of(r) =~= execute_swap_args(
            pub_key,
            ledger_nonce,
            ciphertext_input,
            ciphertext_min_output,
            account,
        ));
    }
    r
}

/// Assemble the `place_order` request arguments.
pub fn build_place_order_args(
    pub_key: [u8; 32],
    ledger_nonce: u128,
    ciphertext_side: [u8; 32],
    ciphertext_size: [u8; 32],
    ciphertext_price: [u8; 32],
    account: [u8; 32],
) -> (r: arcium_anchor::prelude::ArgumentList)
    ensures
        args_of(r) == place_order_args(
            pub_key,
            ledger_nonce,
            ciphertext_side,
            ciphertext_size,
            ciphertext_price,
            account,
        ),
{
    let b = ab_new();
    let b = ab_x25519_pubkey(b, pub_key);
    let b = ab_plaintext_u128(b, ledger_nonce);
    let b = ab_encrypted_u8(b, ciphertext_side);
    let b = ab_encrypted_u64(b, ciphertext_size);
    let b = ab_encrypted_u64(b, ciphertext_price);
    let b = ab_account(b, account, ACCOUNT_STATE_OFFSET, ACCOUNT_STATE_LENGTH);
    let r = ab_build(b);
    proof {
        assert(args_of(r) =~= place_order_args(
            pub_key,
            ledger_nonce,
            ciphertext_side,
            ciphertext_size,
            ciphertext_price,
            account,
        ));
    }
    r
}

/// Assemble the `match_orders` request arguments.
pub fn build_match_orders_args(
    pub_key: [u8; 32],
    ledger_nonce: u128,
    ciphertext_buy_side: [u8; 32],
    ciphertext_buy_size: [u8; 32],
    ciphertext_buy_price: [u8; 32],
    ciphertext_sell_side: [u8; 32],
    ciphertext_sell_size: [u8; 32],
    ciphertext_sell_price: [u8; 32],
    account: [u8; 32],
) -> (r: arcium_anchor::prelude::ArgumentList)
    ensures
        args_of(r) == match_orders_args(
            pub_key,
            ledger_nonce,
            ciphertext_buy_side,
            ciphertext_buy_size,
            ciphertext_buy_price,
            ciphertext_sell_side,
            ciphertext_sell_size,
            ciphertext_sell_price,
            account,
        ),
{
    let b = ab_new();
    let b = ab_x25519_pubkey(b, pub_key);
    let b = ab_plaintext_u128(b, ledger_nonce);
    let b = ab_encrypted_u8(b, ciphertext_buy_side);
    let b = ab_encrypted_u64(b, ciphertext_buy_size);
    let b = ab_encrypted_u64(b, ciphertext_buy_price);
    let b = ab_encrypted_u8(b, ciphertext_sell_side);
    let b = ab_encrypted_u64(b, ciphertext_sell_size);
    let b = ab_encrypted_u64(b, ciphertext_sell_price);
    let b = ab_account(b, account, ACCOUNT_STATE_OFFSET, ACCOUNT_STATE_LENGTH);
    let r = ab_build(b);
    proof {
        assert(args_of(r) =~= match_orders_args(
            pub_key,
            ledger_nonce,
            ciphertext_buy_side,
            ciphertext_buy_size,
            ciphertext_buy_price,
            ciphertext_sell_side,
            ciphertext_sell_size,
            ciphertext_sell_price,
            account,
        ));
    }
    r
}

} // verus!
