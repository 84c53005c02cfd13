//! The parallel scheduler.
//!
//! A non-empty partition is dispatched as a data-parallel map over a
//! worker pool of exactly the configured size; every element executes on
//! its own fork of the block's empty base snapshot, and the partition's
//! contribution to the block's time is the wall-clock span from dispatch
//! start to the completion of the last worker — measured, not summed.

use vstd::prelude::*;
use rayon::iter::{IntoParallelRefIterator, ParallelIterator};
use revm::context::BlockEnv;
use crate::engine::{clock_now, elapsed_micros_clamped, execute_transaction, ExecutionOutcome,
    StateView};
use crate::tx::{wf_tx, TransactionRecord};

verus! {

/// The worker-pool sizes a run may be configured with.
pub open spec fn valid_worker_count(w: usize) -> bool {
    w == 4 || w == 8 || w == 16
}

/// A configured value outside the allowed sweep; reported before any work
/// begins, never silently clamped.
#[derive(Clone, Copy, Debug, PartialEq, Eq, Structural)]
pub enum ConfigError {
    InvalidWorkerCount,
}

/// A partition could not be dispatched.
#[derive(Clone, Copy, Debug, PartialEq, Eq, Structural)]
pub enum ScheduleError {
    /// The worker pool could not be built.
    PoolBuild,
}

/// Accepts exactly the configured worker counts 4, 8 and 16; any other
/// value is a configuration error.
pub fn validate_worker_count(w: usize) -> (r: Result<usize, ConfigError>)
    ensures
        r is Ok <==> valid_worker_count(w),
        r matches Ok(v) ==> v == w,
{
    if w == 4 || w == 8 || w == 16 {
        Ok(w)
    } else {
        Err(ConfigError::InvalidWorkerCount)
    }
}

/// Relies on rayon: `ThreadPoolBuilder::build` yields a pool of exactly
/// `workers` threads (or an error, reported as `None`), and inside
/// `pool.install` a `par_iter().map().collect()` runs one call of
/// `execute_transaction` per element on that pool, collecting the
/// outcomes in input order, one per transaction.
#[verifier::external_body]
fn pool_map(
    txs: &Vec<TransactionRecord>,
    block: &BlockEnv,
    base: &StateView,
    workers: usize,
) -> (r: Option<Vec<ExecutionOutcome>>)
    requires
        workers >= 1,
        forall|i: int| 0 <= i < txs@.len() ==> wf_tx(#[trigger] txs@[i]@),
    ensures
        r matches Some(v) ==> v@.len() == txs@.len(),
{
    let pool = match rayon::ThreadPoolBuilder::new().num_threads(workers).build() {
        Ok(p) => p,
        Err(_) => return None,
    };
    Some(pool.install(|| txs.par_iter().map(|t| execute_transaction(base, block, t)).collect()))
}

/// Dispatches one partition.  An empty partition costs nothing and builds
/// no pool; a non-empty one is mapped over a pool of exactly `workers`
/// threads, and the returned span is the wall clock around the whole
/// dispatch.  Fails only when the pool cannot be built.
pub fn run_partition(
    txs: &Vec<TransactionRecord>,
    block: &BlockEnv,
    base: &StateView,
    workers: usize,
) -> (r: Result<(Vec<ExecutionOutcome>, u64), ScheduleError>)
    requires
        valid_worker_count(workers),
        forall|i: int| 0 <= i < txs@.len() ==> wf_tx(#[trigger] txs@[i]@),
    ensures
        txs@.len() == 0 ==> (r matches Ok(p) && p.0@.len() == 0 && p.1 == 0),
        r matches Ok(p) ==> p.0@.len() == txs@.len(),
{
    if txs.len() == 0 {
        return Ok((Vec::new(), 0));
    }
    let start = clock_now();
    match pool_map(txs, block, base, workers) {
        Some(outcomes) => {
            let span = elapsed_micros_clamped(&start);
            Ok((outcomes, span))
        },
        None => Err(ScheduleError::PoolBuild),
    }
}

} // verus!
