//! The block runner.
//!
//! One block is run at a time: its transactions are decoded and
//! classified, the block's context is built once, the two partitions are
//! dispatched strictly one after the other (deterministic first, never
//! interleaved), and the spans are summed into one per-block result.
//! Blocks of a run are processed strictly sequentially, each block
//! internally parallel, so the configured worker count applies uniformly
//! to every block.

use vstd::prelude::*;
use vstd::string::StringSliceAdditionalSpecFns;
use crate::blockjson::{block_object, json_parses, parse_block_context, parse_json,
    parse_transaction, transactions_array};
use crate::classify::{lemma_partition_complete, lemma_partition_members, partition, partition_by,
    tx_views, ClassLabel};
use crate::context::{wf_context, BlockContext};
use crate::digits::{all_dec_digits, dec_value, parse_dec_u64};
use crate::engine::{block_env_of, StateView};
use crate::sched::{run_partition, valid_worker_count, ScheduleError};
use crate::tx::{wf_tx, TransactionRecord, TxData};

verus! {

/// Why one block contributed nothing to a run.  A failed block is
/// skipped (and should be logged by the caller), never fatal to the run.
#[derive(Clone, Copy, Debug, PartialEq, Eq, Structural)]
pub enum BlockError {
    /// The file's text is not valid JSON.
    InvalidJson,
    /// The block object has no transactions array.
    MissingTransactions,
    /// A partition could not be dispatched.
    Scheduling(ScheduleError),
}

/// Per-block outcome: the block number, the transaction counts and the
/// summed execution time of the two partitions, in microseconds.
#[derive(Clone, Copy, Debug, PartialEq, Eq, Structural)]
pub struct BlockResult {
    pub block_number: u64,
    pub tx_count: usize,
    pub deterministic_count: usize,
    pub execution_time_us: u128,
}

/// How many of the views `s` are labelled deterministic.
pub open spec fn deterministic_count_of(s: Seq<TxData>) -> int {
    partition_by(s, ClassLabel::Deterministic).len() as int
}

/// Runs one block's already-decoded transactions.
///
/// The transactions are split into the two partitions, the deterministic
/// partition is dispatched first and the non-deterministic one after it
/// completes; the block's time is the sum of the two spans.  A block with
/// zero transactions yields a zero-filled result, never an error; the one
/// failure is a worker pool that cannot be built.
pub fn run_block_records(
    block_number: u64,
    txs: &Vec<TransactionRecord>,
    ctx: &BlockContext,
    workers: usize,
) -> (r: Result<BlockResult, BlockError>)
    requires
        valid_worker_count(workers),
        forall|i: int| 0 <= i < txs@.len() ==> wf_tx(#[trigger] txs@[i]@),
        wf_context(ctx@),
    ensures
        r matches Ok(b) ==> b.block_number == block_number,
        r matches Ok(b) ==> b.tx_count == txs@.len(),
        r matches Ok(b) ==> b.deterministic_count == deterministic_count_of(tx_views(txs@)),
        r matches Ok(b) ==> b.deterministic_count <= b.tx_count,
        r matches Ok(b) ==> b.execution_time_us <= 2 * (u64::MAX as int),
        txs@.len() == 0 ==> (r matches Ok(b) && b.tx_count == 0 && b.deterministic_count == 0
            && b.execution_time_us == 0),
        r matches Err(e) ==> e matches BlockError::Scheduling(_),
{
    let ghost vs = tx_views(txs@);
    let (det, nondet) = partition(txs);
    proof {
        lemma_partition_complete(vs);
        lemma_partition_members(vs, ClassLabel::Deterministic);
        lemma_partition_members(vs, ClassLabel::NonDeterministic);
        assert forall|i: int| 0 <= i < det@.len() implies wf_tx(#[trigger] det@[i]@) by {
            assert(tx_views(det@)[i] == det@[i]@);
            assert(vs.contains(tx_views(det@)[i]));
            let j = choose|j: int| 0 <= j < vs.len() && vs[j] == tx_views(det@)[i];
            assert(vs[j] == txs@[j]@);
        }
        assert forall|i: int| 0 <= i < nondet@.len() implies wf_tx(#[trigger] nondet@[i]@) by {
            assert(tx_views(nondet@)[i] == nondet@[i]@);
            assert(vs.contains(tx_views(nondet@)[i]));
            let j = choose|j: int| 0 <= j < vs.len() && vs[j] == tx_views(nondet@)[i];
            assert(vs[j] == txs@[j]@);
        }
    }
    let block_env = block_env_of(ctx);
    let base = StateView::fresh();
    let det_run = match run_partition(&det, &block_env, &base, workers) {
        Ok(p) => p,
        Err(e) => {
            return Err(BlockError::Scheduling(e));
        },
    };
    let nondet_run = match run_partition(&nondet, &block_env, &base, workers) {
        Ok(p) => p,
        Err(e) => {
            return Err(BlockError::Scheduling(e));
        },
    };
    let total: u128 = det_run.1 as u128 + nondet_run.1 as u128;
    let deterministic_count = det.len();
    Ok(
        BlockResult {
            block_number,
            tx_count: txs.len(),
            deterministic_count,
            execution_time_us: total,
        },
    )
}

/// Runs one block from the text of its file.
///
/// Fails only when the text does not parse as JSON, when the block object
/// (the `result` field of an RPC envelope, or the document itself) lacks
/// a transactions array, or when a worker pool cannot be built.  A
/// present-but-empty transactions array yields a zero-filled result.
pub fn run_block(block_number: u64, text: &str, workers: usize) -> (r: Result<
    BlockResult,
    BlockError,
>)
    requires
        valid_worker_count(workers),
    ensures
        r matches Ok(b) ==> b.block_number == block_number,
        r matches Ok(b) ==> b.deterministic_count <= b.tx_count,
        (r matches Err(e) && e == BlockError::InvalidJson) <==> !json_parses(text@),
{
    let doc = match parse_json(text) {
        Ok(v) => v,
        Err(_) => {
            return Err(BlockError::InvalidJson);
        },
    };
    let block = block_object(&doc);
    let arr = match transactions_array(block) {
        Some(a) => a,
        None => {
            return Err(BlockError::MissingTransactions);
        },
    };
    let mut records: Vec<TransactionRecord> = Vec::new();
    let mut i: usize = 0;
    while i < arr.len()
        invariant
            i <= arr@.len(),
            records@.len() == i,
            forall|j: int| 0 <= j < records@.len() ==> wf_tx(#[trigger] records@[j]@),
        decreases arr@.len() - i,
    {
        let t = parse_transaction(&arr[i]);
        records.push(t);
        i = i + 1;
    }
    let ctx = parse_block_context(block);
    run_block_records(block_number, &records, &ctx, workers)
}

/// The block number a file stem denotes: the stem, with one leading
/// `bdf-` marker removed if present, read as a decimal number.
pub open spec fn block_number_of_stem(s: Seq<u8>) -> Option<u64> {
    let t = if s.len() >= 4 && s.take(4) == seq![98u8, 100u8, 102u8, 45u8] {
        s.skip(4)
    } else {
        s
    };
    if t.len() > 0 && all_dec_digits(t) && dec_value(t) <= u64::MAX {
        Some(dec_value(t) as u64)
    } else {
        None
    }
}

/// Reads a block number off a file stem such as `bdf-17000000`.  A stem
/// that does not denote one makes the block unusable and is reported.
pub fn extract_block_number(stem: &str) -> (r: Option<u64>)
    ensures
        r == block_number_of_stem(stem.spec_bytes()),
{
    let b = stem.as_bytes();
    let t: &[u8] = if b.len() >= 4 && b[0] == 98 && b[1] == 100 && b[2] == 102 && b[3] == 45 {
        proof {
            assert(b@.take(4) =~= seq![98u8, 100u8, 102u8, 45u8]);
        }
        vstd::slice::slice_subrange(b, 4, b.len())
    } else {
        proof {
            if b@.len() >= 4 && b@.take(4) == seq![98u8, 100u8, 102u8, 45u8] {
                assert(b@.take(4)[0] == b@[0]);
                assert(b@.take(4)[1] == b@[1]);
                assert(b@.take(4)[2] == b@[2]);
                assert(b@.take(4)[3] == b@[3]);
            }
        }
        b
    };
    parse_dec_u64(t)
}

} // verus!
