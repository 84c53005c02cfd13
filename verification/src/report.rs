//! The aggregator and the report.
//!
//! The ordered per-block results of a run are reduced into run-level
//! totals (saturating at `u64::MAX`, which real runs never reach) and a
//! derived throughput, and laid out as a tab-separated table with the
//! header `Block No / Threads / Block Size / Williams Time`, one row per
//! block, the time printed to microsecond precision in milliseconds.

use vstd::prelude::*;
use crate::digits::{all_dec_digits, dec_value};
use crate::runner::BlockResult;

verus! {

/// ASCII decimal representation of a number, most significant digit
/// first, no leading zeroes.
pub open spec fn dec_of(n: nat) -> Seq<u8>
    decreases n,
{
    if n < 10 {
        seq![(48 + n) as u8]
    } else {
        dec_of(n / 10).push((48 + n % 10) as u8)
    }
}

/// Formatting a number and reading the digits back yields the number
/// unchanged, and the digits are nothing but decimal digits.
pub proof fn lemma_dec_roundtrip(n: nat)
    ensures
        dec_of(n).len() > 0,
        all_dec_digits(dec_of(n)),
        dec_value(dec_of(n)) == n,
    decreases n,
{
    if n < 10 {
        let s = dec_of(n);
        assert(s.len() == 1);
        assert(s.last() == (48 + n) as u8);
        assert(s.drop_last() =~= Seq::<u8>::empty());
        assert(dec_value(s.drop_last()) == 0);
        assert(dec_value(s) == dec_value(s.drop_last()) * 10 + (s.last() - 48) as nat);
    } else {
        lemma_dec_roundtrip(n / 10);
        let p = dec_of(n / 10);
        let d = (48 + n % 10) as u8;
        assert(p.push(d).drop_last() =~= p);
        assert(dec_value(p.push(d)) == dec_value(p) * 10 + (d - 48) as nat);
        assert(n / 10 * 10 + n % 10 == n) by {
            vstd::arithmetic::div_mod::lemma_fundamental_div_mod(n as int, 10);
        }
        assert forall|i: int| 0 <= i < p.push(d).len() implies crate::digits::is_dec_digit(
            #[trigger] p.push(d)[i],
        ) by {
            if i < p.len() {
                assert(p.push(d)[i] == p[i]);
            }
        }
    }
}

/// The decimal digits of `n`, as bytes.
pub fn format_u128(n: u128) -> (v: Vec<u8>)
    ensures
        v@ == dec_of(n as nat),
{
    let mut rev: Vec<u8> = Vec::new();
    let mut m: u128 = n;
    while m >= 10
        invariant
            dec_of(n as nat) =~= dec_of(m as nat) + rev@.reverse(),
        decreases m,
    {
        let d: u8 = (m % 10) as u8 + 48;
        proof {
            assert(rev@.push(d).reverse() =~= seq![d] + rev@.reverse());
            assert(dec_of((m as nat) / 10).push(d) =~= dec_of((m as nat) / 10) + seq![d]);
            assert((dec_of((m as nat) / 10) + seq![d]) + rev@.reverse() =~= dec_of(
                (m as nat) / 10,
            ) + (seq![d] + rev@.reverse()));
        }
        rev.push(d);
        m = m / 10;
    }
    let mut out: Vec<u8> = Vec::new();
    out.push(m as u8 + 48);
    proof {
        assert(out@ =~= dec_of(m as nat));
        assert(rev@.take(rev@.len() as int) =~= rev@);
    }
    let mut j: usize = rev.len();
    while j > 0
        invariant
            j <= rev@.len(),
            dec_of(n as nat) =~= out@ + rev@.take(j as int).reverse(),
        decreases j,
    {
        let b = rev[j - 1];
        proof {
            assert(rev@.take(j as int).reverse() =~= seq![rev@[j - 1]] + rev@.take(
                j - 1,
            ).reverse());
            assert((out@ + (seq![rev@[j - 1]] + rev@.take(j - 1).reverse())) =~= (out@.push(
                rev@[j - 1],
            ) + rev@.take(j - 1).reverse()));
        }
        out.push(b);
        j = j - 1;
    }
    proof {
        assert(rev@.take(0).reverse() =~= Seq::<u8>::empty());
        assert(out@ + Seq::<u8>::empty() =~= out@);
    }
    out
}

/// The three sub-millisecond digits of a microsecond remainder.
pub open spec fn frac3(f: nat) -> Seq<u8> {
    seq![(48 + f / 100 % 10) as u8, (48 + f / 10 % 10) as u8, (48 + f % 10) as u8]
}

/// A microsecond span printed as milliseconds with six decimals: the
/// whole milliseconds, a dot, the three sub-millisecond digits, and
/// three zeroes (a microsecond count has no finer digits).
pub open spec fn time_ms_repr(us: nat) -> Seq<u8> {
    dec_of(us / 1000) + seq![46u8] + frac3(us % 1000) + seq![48u8, 48u8, 48u8]
}

/// Formats a microsecond span as milliseconds with six decimals.
pub fn format_time_us(us: u128) -> (v: Vec<u8>)
    ensures
        v@ == time_ms_repr(us as nat),
{
    let mut v = format_u128(us / 1000);
    let f: u128 = us % 1000;
    v.push(46);
    v.push((f / 100 % 10) as u8 + 48);
    v.push((f / 10 % 10) as u8 + 48);
    v.push((f % 10) as u8 + 48);
    v.push(48);
    v.push(48);
    v.push(48);
    proof {
        assert(v@ =~= time_ms_repr(us as nat));
    }
    v
}

/// The report's header line, `Block No`, `Threads`, `Block Size` and
/// `Williams Time` separated by tabs.
pub open spec fn report_header() -> Seq<u8> {
    seq![
        66u8, 108u8, 111u8, 99u8, 107u8, 32u8, 78u8, 111u8, 9u8, 84u8, 104u8, 114u8, 101u8, 97u8,
        100u8, 115u8, 9u8, 66u8, 108u8, 111u8, 99u8, 107u8, 32u8, 83u8, 105u8, 122u8, 101u8, 9u8,
        87u8, 105u8, 108u8, 108u8, 105u8, 97u8, 109u8, 115u8, 32u8, 84u8, 105u8, 109u8, 101u8,
        10u8,
    ]
}

/// One report row: block number, worker count, block size (the block's
/// total transaction count) and the block's time, tab-separated, the
/// time suffixed `ms`, ended by a newline.
pub open spec fn report_row(b: BlockResult, workers: u64) -> Seq<u8> {
    dec_of(b.block_number as nat) + seq![9u8] + dec_of(workers as nat) + seq![9u8] + dec_of(
        b.tx_count as nat,
    ) + seq![9u8] + time_ms_repr(b.execution_time_us as nat) + seq![109u8, 115u8, 10u8]
}

/// The rows of a report, in block order.
pub open spec fn report_rows(s: Seq<BlockResult>, workers: u64) -> Seq<u8>
    decreases s.len(),
{
    if s.len() == 0 {
        Seq::empty()
    } else {
        report_rows(s.drop_last(), workers) + report_row(s.last(), workers)
    }
}

/// A whole report: the header, then one row per block.
pub open spec fn report_text(s: Seq<BlockResult>, workers: u64) -> Seq<u8> {
    report_header() + report_rows(s, workers)
}

/// The `Block Size` column of a row carries the block's total
/// transaction count exactly, independent of the class split: the row is
/// the concatenation below, the column's digits read back as the count,
/// and they hold no tab or other byte that could blur the column split.
pub proof fn lemma_row_block_size_roundtrip(b: BlockResult, workers: u64)
    ensures
        report_row(b, workers) == dec_of(b.block_number as nat) + seq![9u8] + dec_of(
            workers as nat,
        ) + seq![9u8] + dec_of(b.tx_count as nat) + seq![9u8] + time_ms_repr(
            b.execution_time_us as nat,
        ) + seq![109u8, 115u8, 10u8],
        dec_value(dec_of(b.tx_count as nat)) == b.tx_count,
        all_dec_digits(dec_of(b.tx_count as nat)),
{
    lemma_dec_roundtrip(b.tx_count as nat);
}

fn header_bytes() -> (v: Vec<u8>)
    ensures
        v@ == report_header(),
{
    let mut v: Vec<u8> = Vec::new();
    v.push(66);
    v.push(108);
    v.push(111);
    v.push(99);
    v.push(107);
    v.push(32);
    v.push(78);
    v.push(111);
    v.push(9);
    v.push(84);
    v.push(104);
    v.push(114);
    v.push(101);
    v.push(97);
    v.push(100);
    v.push(115);
    v.push(9);
    v.push(66);
    v.push(108);
    v.push(111);
    v.push(99);
    v.push(107);
    v.push(32);
    v.push(83);
    v.push(105);
    v.push(122);
    v.push(101);
    v.push(9);
    v.push(87);
    v.push(105);
    v.push(108);
    v.push(108);
    v.push(105);
    v.push(97);
    v.push(109);
    v.push(115);
    v.push(32);
    v.push(84);
    v.push(105);
    v.push(109);
    v.push(101);
    v.push(10);
    proof {
        assert(v@ =~= report_header());
    }
    v
}

fn row_bytes(b: &BlockResult, workers: u64) -> (v: Vec<u8>)
    ensures
        v@ == report_row(*b, workers),
{
    let mut v = format_u128(b.block_number as u128);
    v.push(9);
    let mut part = format_u128(workers as u128);
    v.append(&mut part);
    v.push(9);
    let mut part = format_u128(b.tx_count as u128);
    v.append(&mut part);
    v.push(9);
    let mut part = format_time_us(b.execution_time_us);
    v.append(&mut part);
    v.push(109);
    v.push(115);
    v.push(10);
    proof {
        assert(v@ =~= report_row(*b, workers));
    }
    v
}

/// Lays out the whole report for one worker-count configuration.
pub fn format_report(results: &Vec<BlockResult>, workers: u64) -> (v: Vec<u8>)
    ensures
        v@ == report_text(results@, workers),
{
    let mut v = header_bytes();
    let mut i: usize = 0;
    while i < results.len()
        invariant
            i <= results@.len(),
            v@ == report_header() + report_rows(results@.take(i as int), workers),
        decreases results@.len() - i,
    {
        let mut row = row_bytes(&results[i], workers);
        proof {
            assert(results@.take(i + 1).drop_last() =~= results@.take(i as int));
            assert(results@.take(i + 1).last() == results@[i as int]);
            assert((report_header() + report_rows(results@.take(i as int), workers)) + report_row(
                results@[i as int],
                workers,
            ) =~= report_header() + report_rows(results@.take(i + 1), workers));
        }
        v.append(&mut row);
        i = i + 1;
    }
    proof {
        assert(results@.take(results@.len() as int) =~= results@);
        assert(v@ =~= report_text(results@, workers));
    }
    v
}

/// Saturating-at-`u64::MAX` value of a sum.
pub open spec fn sat64(x: int) -> int {
    if x > u64::MAX as int {
        u64::MAX as int
    } else {
        x
    }
}

/// Left-to-right sum of a sequence, each step saturating at `u64::MAX`.
/// For every run whose true totals fit in a `u64` — all real ones — this
/// is the exact sum (see [`lemma_clamped_sum_exact`]).
pub open spec fn clamped_sum(s: Seq<int>) -> int
    decreases s.len(),
{
    if s.len() == 0 {
        0
    } else {
        sat64(clamped_sum(s.drop_last()) + s.last())
    }
}

/// Exact mathematical sum of a sequence.
pub open spec fn exact_sum(s: Seq<int>) -> int
    decreases s.len(),
{
    if s.len() == 0 {
        0
    } else {
        exact_sum(s.drop_last()) + s.last()
    }
}

/// On non-negative entries whose true sum fits in a `u64`, the clamped
/// sum is the true sum.
pub proof fn lemma_clamped_sum_exact(s: Seq<int>)
    requires
        forall|i: int| 0 <= i < s.len() ==> s[i] >= 0,
        exact_sum(s) <= u64::MAX as int,
    ensures
        clamped_sum(s) == exact_sum(s),
    decreases s.len(),
{
    if s.len() > 0 {
        assert forall|i: int| 0 <= i < s.drop_last().len() implies s.drop_last()[i] >= 0 by {
            assert(s.drop_last()[i] == s[i]);
        }
        lemma_exact_sum_nonneg(s.drop_last());
        assert(s.last() >= 0);
        lemma_clamped_sum_exact(s.drop_last());
    }
}

/// A sum of non-negative entries is non-negative.
proof fn lemma_exact_sum_nonneg(s: Seq<int>)
    requires
        forall|i: int| 0 <= i < s.len() ==> s[i] >= 0,
    ensures
        exact_sum(s) >= 0,
    decreases s.len(),
{
    if s.len() > 0 {
        assert forall|i: int| 0 <= i < s.drop_last().len() implies s.drop_last()[i] >= 0 by {
            assert(s.drop_last()[i] == s[i]);
        }
        lemma_exact_sum_nonneg(s.drop_last());
    }
}

/// The transaction counts of a run's results.
pub open spec fn tx_counts(s: Seq<BlockResult>) -> Seq<int> {
    Seq::new(s.len(), |i: int| s[i].tx_count as int)
}

/// The deterministic-class counts of a run's results.
pub open spec fn det_counts(s: Seq<BlockResult>) -> Seq<int> {
    Seq::new(s.len(), |i: int| s[i].deterministic_count as int)
}

/// The execution times of a run's results, in microseconds.
pub open spec fn times_us(s: Seq<BlockResult>) -> Seq<int> {
    Seq::new(s.len(), |i: int| s[i].execution_time_us as int)
}

/// Throughput in transactions per second: the total transaction count
/// over the total time, zero when no time was measured (never a division
/// by zero), saturating at `u64::MAX`.
pub open spec fn throughput_of(txs: u64, us: u64) -> int {
    if us == 0 {
        0
    } else {
        sat64((txs as int) * 1000000 / (us as int))
    }
}

/// Run-level totals over an ordered sequence of per-block results.
#[derive(Clone, Copy, Debug, PartialEq, Eq, Structural)]
pub struct RunReport {
    pub blocks: usize,
    pub total_txs: u64,
    pub total_deterministic: u64,
    pub total_time_us: u64,
    pub throughput_tps: u64,
}

fn sat_add_u64(a: u64, b: u64) -> (r: u64)
    ensures
        r == sat64(a + b),
{
    if a > u64::MAX - b {
        u64::MAX
    } else {
        a + b
    }
}

fn sat_add_u64_u128(a: u64, b: u128) -> (r: u64)
    ensures
        r == sat64(a + b),
{
    if b > (u64::MAX - a) as u128 {
        u64::MAX
    } else {
        a + b as u64
    }
}

/// Reduces the ordered per-block results into run-level totals and the
/// derived throughput.
pub fn aggregate(results: &Vec<BlockResult>) -> (r: RunReport)
    ensures
        r.blocks == results@.len(),
        r.total_txs == clamped_sum(tx_counts(results@)),
        r.total_deterministic == clamped_sum(det_counts(results@)),
        r.total_time_us == clamped_sum(times_us(results@)),
        r.throughput_tps == throughput_of(r.total_txs, r.total_time_us),
{
    let ghost all = results@;
    let mut total_txs: u64 = 0;
    let mut total_det: u64 = 0;
    let mut total_time: u64 = 0;
    let mut i: usize = 0;
    while i < results.len()
        invariant
            i <= all.len(),
            all == results@,
            total_txs == clamped_sum(tx_counts(all).take(i as int)),
            total_det == clamped_sum(det_counts(all).take(i as int)),
            total_time == clamped_sum(times_us(all).take(i as int)),
        decreases all.len() - i,
    {
        let b = &results[i];
        proof {
            assert(tx_counts(all).take(i + 1).drop_last() =~= tx_counts(all).take(i as int));
            assert(det_counts(all).take(i + 1).drop_last() =~= det_counts(all).take(i as int));
            assert(times_us(all).take(i + 1).drop_last() =~= times_us(all).take(i as int));
            assert(tx_counts(all).take(i + 1).last() == tx_counts(all)[i as int]);
            assert(det_counts(all).take(i + 1).last() == det_counts(all)[i as int]);
            assert(times_us(all).take(i + 1).last() == times_us(all)[i as int]);
        }
        total_txs = sat_add_u64(total_txs, b.tx_count as u64);
        total_det = sat_add_u64(total_det, b.deterministic_count as u64);
        total_time = sat_add_u64_u128(total_time, b.execution_time_us);
        i = i + 1;
    }
    proof {
        assert(tx_counts(all).take(all.len() as int) =~= tx_counts(all));
        assert(det_counts(all).take(all.len() as int) =~= det_counts(all));
        assert(times_us(all).take(all.len() as int) =~= times_us(all));
    }
    let throughput_tps: u64 = if total_time == 0 {
        0
    } else {
        let wide: u128 = total_txs as u128 * 1000000;
        let q: u128 = wide / total_time as u128;
        if q > u64::MAX as u128 {
            u64::MAX
        } else {
            q as u64
        }
    };
    RunReport {
        blocks: results.len(),
        total_txs,
        total_deterministic: total_det,
        total_time_us: total_time,
        throughput_tps,
    }
}

} // verus!
