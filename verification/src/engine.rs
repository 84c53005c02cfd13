//! The execution adapter.
//!
//! The external execution engine is reached through exactly one call
//! surface: build the engine over a forked state snapshot and a block
//! environment, execute one transaction, observe success or failure and
//! the wall-clock time around the call.  Engine-level faults (reverts,
//! out-of-gas, invalid transactions) are recorded in the outcome and
//! never surface as errors.

use vstd::prelude::*;
use revm::context::{BlockEnv, TxEnv};
use revm::database::CacheDB;
use revm::database_interface::EmptyDB;
use revm::primitives::{Address, Bytes, TxKind, U256};
use revm::{Context, ExecuteEvm, MainBuilder, MainContext};
use crate::context::BlockContext;
use crate::tx::{wf_tx, TransactionRecord};

verus! {

#[verifier::external_type_specification]
#[verifier::external_body]
pub struct ExTxEnv(TxEnv);

#[verifier::external_type_specification]
#[verifier::external_body]
pub struct ExBlockEnv(BlockEnv);

#[verifier::external_type_specification]
#[verifier::external_body]
#[verifier::reject_recursive_types(ExtDB)]
pub struct ExCacheDB<ExtDB>(CacheDB<ExtDB>);

#[verifier::external_type_specification]
#[verifier::external_body]
#[verifier::reject_recursive_types(E)]
pub struct ExEmptyDBTyped<E>(revm::database_interface::EmptyDBTyped<E>);

#[verifier::external_type_specification]
#[verifier::external_body]
pub struct ExInstant(std::time::Instant);

/// A forkable account/storage snapshot scoped to one block.  The base
/// snapshot of a block is always empty (no cross-block persistence); each
/// worker mutates only its own fork, and no fork is ever merged back.
pub struct StateView {
    db: CacheDB<EmptyDB>,
}

/// Per-transaction result: wall-clock time around the engine call and the
/// engine-reported outcome kind.  A failure is recorded, never raised.
#[derive(Clone, Copy, Debug, PartialEq, Eq, Structural)]
pub struct ExecutionOutcome {
    pub elapsed_us: u64,
    pub success: bool,
}

/// Relies on revm's `CacheDB::new` over `EmptyDB::new`: the snapshot it
/// returns is empty — every account and storage slot reads as default.
#[verifier::external_body]
fn new_cache_db() -> CacheDB<EmptyDB> {
    CacheDB::new(EmptyDB::new())
}

/// Relies on `CacheDB`'s `Clone`: the copy shares nothing mutable with
/// the original, so writes through it never escape the fork.
#[verifier::external_body]
fn clone_cache_db(db: &CacheDB<EmptyDB>) -> CacheDB<EmptyDB> {
    db.clone()
}

impl StateView {
    /// The empty base snapshot of one block.
    pub fn fresh() -> StateView {
        StateView { db: new_cache_db() }
    }

    /// A fork of this snapshot, exclusively owned by one worker.
    pub fn fork(&self) -> StateView {
        StateView { db: clone_cache_db(&self.db) }
    }
}

/// Relies on revm's `TxEnv` and its field types — `Address::from_slice`
/// (which asks for exactly 20 bytes), `U256::from_str_radix` (value falls
/// back to zero when its digits do not parse), `Bytes::copy_from_slice`
/// and `TxKind` — to assemble the engine's transaction parameters.
#[verifier::external_body]
fn make_tx_env(
    caller: &[u8],
    to: Option<&[u8]>,
    value_hex: &[u8],
    data: &[u8],
    gas_limit: u64,
    gas_price: u128,
) -> (r: TxEnv)
    requires
        caller@.len() == 20,
        to matches Some(a) ==> a@.len() == 20,
{
    let value = match core::str::from_utf8(value_hex) {
        Ok(s) => U256::from_str_radix(s, 16).unwrap_or(U256::ZERO),
        Err(_) => U256::ZERO,
    };
    TxEnv {
        caller: Address::from_slice(caller),
        gas_limit,
        gas_price,
        kind: to.map_or(TxKind::Create, |a| TxKind::Call(Address::from_slice(a))),
        value,
        data: Bytes::copy_from_slice(data),
        ..Default::default()
    }
}

/// Relies on revm's `BlockEnv` and `Address::from_slice` (exactly 20
/// bytes) and `U256::from` to assemble the engine's block parameters.
#[verifier::external_body]
fn make_block_env(
    number: u64,
    timestamp: u64,
    gas_limit: u64,
    base_fee: u64,
    coinbase: &[u8],
) -> (r: BlockEnv)
    requires
        coinbase@.len() == 20,
{
    BlockEnv {
        number: U256::from(number),
        beneficiary: Address::from_slice(coinbase),
        timestamp: U256::from(timestamp),
        gas_limit,
        basefee: base_fee,
        ..Default::default()
    }
}

/// The engine's block environment for one block context.
pub fn block_env_of(ctx: &BlockContext) -> (r: BlockEnv)
    requires
        crate::context::wf_context(ctx@),
{
    make_block_env(ctx.number, ctx.timestamp, ctx.gas_limit, ctx.base_fee, ctx.coinbase.as_slice())
}

/// Relies on revm's mainnet EVM (`Context::mainnet`, `build_mainnet`,
/// `ExecuteEvm::transact`): it executes one transaction against the given
/// snapshot and block environment and reports whether the engine
/// succeeded.  A fault of any kind comes back as `false`, never as a
/// panic or an error.
#[verifier::external_body]
fn engine_transact(state: StateView, block: &BlockEnv, tx: TxEnv) -> (ok: bool) {
    let mut evm = Context::mainnet().with_db(state.db).with_block(block.clone()).build_mainnet();
    match evm.transact(tx) {
        Ok(r) => r.result.is_success(),
        Err(_) => false,
    }
}

/// Relies on `std::time::Instant::now` for a monotonic clock reading.
#[verifier::external_body]
pub(crate) fn clock_now() -> std::time::Instant {
    std::time::Instant::now()
}

/// Relies on `Instant::elapsed` for the span since a clock reading.
#[verifier::external_body]
pub(crate) fn clock_elapsed(t: &std::time::Instant) -> core::time::Duration {
    t.elapsed()
}

/// Relies on `Duration::as_micros` for the span in microseconds.
#[verifier::external_body]
pub(crate) fn duration_micros(d: &core::time::Duration) -> u128 {
    d.as_micros()
}

/// The microseconds elapsed since a clock reading, saturating at
/// `u64::MAX` (about 585 thousand years).
pub(crate) fn elapsed_micros_clamped(t: &std::time::Instant) -> (us: u64) {
    let d = clock_elapsed(t);
    let wide = duration_micros(&d);
    if wide > u64::MAX as u128 {
        u64::MAX
    } else {
        wide as u64
    }
}

/// Executes one transaction: forks the base snapshot, translates the
/// record into the engine's parameters, invokes the engine once and
/// records the wall-clock duration around the call.
///
/// The outcome depends on the engine and on the clock, so nothing is
/// promised of it; the deliberate point of this adapter is that a fault
/// becomes a metric, not an error.
pub fn execute_transaction(base: &StateView, block: &BlockEnv, tx: &TransactionRecord) -> (o:
    ExecutionOutcome)
    requires
        wf_tx(tx@),
{
    let fork = base.fork();
    let to: Option<&[u8]> = match &tx.to {
        Some(a) => Some(a.as_slice()),
        None => None,
    };
    let tenv = make_tx_env(
        tx.from.as_slice(),
        to,
        tx.value_hex.as_slice(),
        tx.input.as_slice(),
        tx.gas_limit,
        tx.gas_price,
    );
    let start = clock_now();
    let ok = engine_transact(fork, block, tenv);
    let us = elapsed_micros_clamped(&start);
    ExecutionOutcome { elapsed_us: us, success: ok }
}

} // verus!
