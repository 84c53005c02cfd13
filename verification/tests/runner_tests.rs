use williams_exec::context::BlockContext;
use williams_exec::engine::{block_env_of, StateView};
use williams_exec::runner::{extract_block_number, run_block, BlockError};
use williams_exec::sched::{run_partition, validate_worker_count, ConfigError};
use williams_exec::tx::TransactionRecord;

const ADDR_A: &str = "0x00112233445566778899aabbccddeeff00112233";
const ADDR_B: &str = "0xffeeddccbbaa99887766554433221100ffeeddcc";

#[test]
fn worker_counts_accepted() {
    assert_eq!(validate_worker_count(4), Ok(4));
    assert_eq!(validate_worker_count(8), Ok(8));
    assert_eq!(validate_worker_count(16), Ok(16));
}

#[test]
fn worker_counts_rejected_not_clamped() {
    for w in [0usize, 1, 2, 3, 5, 6, 7, 9, 15, 17, 32, 64] {
        assert_eq!(validate_worker_count(w), Err(ConfigError::InvalidWorkerCount));
    }
}

#[test]
fn empty_transaction_list_is_a_zero_result() {
    let text = r#"{"transactions": []}"#;
    let r = run_block(7, text, 4).unwrap();
    assert_eq!(r.block_number, 7);
    assert_eq!(r.tx_count, 0);
    assert_eq!(r.deterministic_count, 0);
    assert_eq!(r.execution_time_us, 0);
}

#[test]
fn invalid_json_is_an_error() {
    assert_eq!(run_block(1, "not json at all", 4).unwrap_err(), BlockError::InvalidJson);
}

#[test]
fn missing_transactions_is_an_error() {
    assert_eq!(run_block(1, "{}", 4).unwrap_err(), BlockError::MissingTransactions);
    let envelope = r#"{"result": {"number": "0x10"}}"#;
    assert_eq!(run_block(1, envelope, 4).unwrap_err(), BlockError::MissingTransactions);
}

#[test]
fn one_plain_transfer_is_deterministic() {
    // one transaction with empty input and a valid recipient
    let text = format!(
        r#"{{"number": "0x10", "timestamp": "0x5f5e100", "gasLimit": "0x1c9c380",
            "baseFeePerGas": "0x7", "miner": "{ADDR_B}",
            "transactions": [{{"from": "{ADDR_A}", "to": "{ADDR_B}", "value": "0x1",
                "input": "0x", "gas": "0x5208", "gasPrice": "0x3b9aca00"}}]}}"#
    );
    let r = run_block(16, &text, 4).unwrap();
    assert_eq!(r.block_number, 16);
    assert_eq!(r.tx_count, 1);
    assert_eq!(r.deterministic_count, 1);
}

#[test]
fn one_creation_is_nondeterministic() {
    // `to` absent and non-trivial init code: a contract-creation shape
    let text = format!(
        r#"{{"number": "0x11", "timestamp": "0x5f5e100", "gasLimit": "0x1c9c380",
            "baseFeePerGas": "0x7", "miner": "{ADDR_B}",
            "transactions": [{{"from": "{ADDR_A}", "value": "0x0",
                "input": "0x6080604052348015610010", "gas": "0x5208", "gasPrice": "0x1"}}]}}"#
    );
    let r = run_block(17, &text, 4).unwrap();
    assert_eq!(r.tx_count, 1);
    assert_eq!(r.deterministic_count, 0);
}

#[test]
fn rpc_envelope_is_unwrapped() {
    let text = format!(
        r#"{{"jsonrpc": "2.0", "id": 1, "result": {{"number": "0x20",
            "transactions": [{{"from": "{ADDR_A}", "to": "{ADDR_B}", "input": "0x"}}]}}}}"#
    );
    let r = run_block(32, &text, 8).unwrap();
    assert_eq!(r.tx_count, 1);
    assert_eq!(r.deterministic_count, 1);
}

#[test]
fn malformed_fields_degrade_never_abort() {
    // unparseable value, gas, gasPrice and a malformed recipient still run
    let text = r#"{"transactions": [{"from": "0xzz", "to": "0x1234",
        "value": "0xnope", "input": "0xqq", "gas": "0xgg", "gasPrice": "bad"}]}"#;
    let r = run_block(3, text, 4).unwrap();
    assert_eq!(r.tx_count, 1);
    // empty decoded input: a plain value transfer
    assert_eq!(r.deterministic_count, 1);
}

/// A performance regression check, not an exact bound: the same block run
/// with more workers is expected to show speedup, but wall-clock ratios
/// are not asserted — only that every configuration measures the same
/// counts and records a time.
#[test]
fn thousand_and_thousand_split_runs_under_every_width() {
    let mut txs = String::new();
    for i in 0..2000u32 {
        if i > 0 {
            txs.push(',');
        }
        let input = if i % 2 == 0 { "0x" } else { "0xdeadbeef0102030405060708090a" };
        txs.push_str(&format!(
            r#"{{"from": "{ADDR_A}", "to": "{ADDR_B}", "value": "0x1",
                "input": "{input}", "gas": "0x5208", "gasPrice": "0x1"}}"#
        ));
    }
    let text = format!(
        r#"{{"number": "0x1", "timestamp": "0x2", "gasLimit": "0x1c9c380",
            "baseFeePerGas": "0x0", "miner": "{ADDR_B}", "transactions": [{txs}]}}"#
    );
    let eight_a = run_block(1, &text, 8).unwrap();
    let eight_b = run_block(1, &text, 8).unwrap();
    let four = run_block(1, &text, 4).unwrap();
    for r in [&eight_a, &eight_b, &four] {
        assert_eq!(r.tx_count, 2000);
        assert_eq!(r.deterministic_count, 1000);
    }
}

#[test]
fn scheduler_reports_one_outcome_per_transaction() {
    // the faults the engine may report stay typed results, never errors
    let tx = TransactionRecord {
        from: vec![0u8; 20],
        to: Some(vec![1u8; 20]),
        value_hex: b"1".to_vec(),
        input: Vec::new(),
        gas_limit: 21000,
        gas_price: 1,
    };
    let txs = vec![tx.clone(), tx.clone(), tx];
    let ctx = BlockContext {
        number: 1,
        timestamp: 2,
        gas_limit: 30_000_000,
        base_fee: 0,
        coinbase: vec![2u8; 20],
    };
    let block_env = block_env_of(&ctx);
    let base = StateView::fresh();
    let (outcomes, _span) = run_partition(&txs, &block_env, &base, 4).unwrap();
    assert_eq!(outcomes.len(), 3);
    // an empty partition costs nothing
    let (none, span) = run_partition(&Vec::new(), &block_env, &base, 4).unwrap();
    assert!(none.is_empty());
    assert_eq!(span, 0);
}

#[test]
fn block_numbers_from_file_stems() {
    assert_eq!(extract_block_number("bdf-17000000"), Some(17_000_000));
    assert_eq!(extract_block_number("12345"), Some(12345));
    assert_eq!(extract_block_number("bdf-"), None);
    assert_eq!(extract_block_number("bdf-12x"), None);
    assert_eq!(extract_block_number("block-9"), None);
    assert_eq!(extract_block_number(""), None);
    // the marker is removed at most once
    assert_eq!(extract_block_number("bdf-bdf-1"), None);
}
