use williams_exec::report::{aggregate, format_report, format_time_us, format_u128};
use williams_exec::runner::BlockResult;

fn result(block_number: u64, tx_count: usize, det: usize, us: u128) -> BlockResult {
    BlockResult { block_number, tx_count, deterministic_count: det, execution_time_us: us }
}

#[test]
fn decimal_formatting() {
    assert_eq!(format_u128(0), b"0".to_vec());
    assert_eq!(format_u128(7), b"7".to_vec());
    assert_eq!(format_u128(10), b"10".to_vec());
    assert_eq!(format_u128(17_000_000), b"17000000".to_vec());
    assert_eq!(format_u128(u128::MAX), b"340282366920938463463374607431768211455".to_vec());
}

#[test]
fn time_formatting_microsecond_precision() {
    assert_eq!(format_time_us(0), b"0.000000".to_vec());
    assert_eq!(format_time_us(1), b"0.001000".to_vec());
    assert_eq!(format_time_us(1234), b"1.234000".to_vec());
    assert_eq!(format_time_us(999), b"0.999000".to_vec());
    assert_eq!(format_time_us(2_000_050), b"2000.050000".to_vec());
}

#[test]
fn report_layout() {
    let results = vec![result(17000000, 150, 90, 1234), result(17000001, 3, 0, 250)];
    let text = format_report(&results, 16);
    let expect = b"Block No\tThreads\tBlock Size\tWilliams Time\n\
                   17000000\t16\t150\t1.234000ms\n\
                   17000001\t16\t3\t0.250000ms\n"
        .to_vec();
    assert_eq!(text, expect);
}

#[test]
fn report_block_size_column_is_the_transaction_count() {
    // whatever the class split, the third column is the block's size
    for det in [0usize, 1, 2, 3] {
        let results = vec![result(5, 3, det, 1000)];
        let text = String::from_utf8(format_report(&results, 8)).unwrap();
        let row = text.lines().nth(1).unwrap();
        let cols: Vec<&str> = row.split('\t').collect();
        assert_eq!(cols[2], "3");
    }
}

#[test]
fn empty_report_is_just_the_header() {
    let text = format_report(&Vec::new(), 4);
    assert_eq!(text, b"Block No\tThreads\tBlock Size\tWilliams Time\n".to_vec());
}

#[test]
fn aggregate_totals() {
    let results = vec![result(1, 100, 60, 2_000_000), result(2, 50, 10, 1_000_000)];
    let r = aggregate(&results);
    assert_eq!(r.blocks, 2);
    assert_eq!(r.total_txs, 150);
    assert_eq!(r.total_deterministic, 70);
    assert_eq!(r.total_time_us, 3_000_000);
    // 150 transactions in three seconds
    assert_eq!(r.throughput_tps, 50);
}

#[test]
fn aggregate_of_no_blocks() {
    let r = aggregate(&Vec::new());
    assert_eq!(r.blocks, 0);
    assert_eq!(r.total_txs, 0);
    assert_eq!(r.total_time_us, 0);
    assert_eq!(r.throughput_tps, 0);
}

#[test]
fn zero_time_reports_zero_throughput() {
    let results = vec![result(1, 10, 10, 0)];
    let r = aggregate(&results);
    assert_eq!(r.total_txs, 10);
    assert_eq!(r.total_time_us, 0);
    assert_eq!(r.throughput_tps, 0);
}

#[test]
fn totals_saturate_instead_of_overflowing() {
    let results = vec![result(1, 10, 5, u128::MAX), result(2, 10, 5, u128::MAX)];
    let r = aggregate(&results);
    assert_eq!(r.total_time_us, u64::MAX);
    assert_eq!(r.total_txs, 20);
}
