use williams_exec::classify::{classify, partition, ClassLabel};
use williams_exec::tx::TransactionRecord;

fn record(input: Vec<u8>, to: Option<Vec<u8>>) -> TransactionRecord {
    TransactionRecord {
        from: vec![0u8; 20],
        to,
        value_hex: Vec::new(),
        input,
        gas_limit: 21000,
        gas_price: 1,
    }
}

#[test]
fn empty_call_data_is_deterministic() {
    let with_recipient = record(Vec::new(), Some(vec![1u8; 20]));
    assert_eq!(classify(&with_recipient), ClassLabel::Deterministic);
    let without_recipient = record(Vec::new(), None);
    assert_eq!(classify(&without_recipient), ClassLabel::Deterministic);
}

#[test]
fn short_call_data_is_deterministic() {
    // nine bytes, below the ten-byte threshold
    let tx = record(vec![0xde, 0xad, 0xbe, 0xef, 0x01, 0x02, 0x03, 0x04, 0x05], Some(vec![1u8; 20]));
    assert_eq!(classify(&tx), ClassLabel::Deterministic);
}

#[test]
fn known_selectors_are_deterministic() {
    let selectors: [[u8; 4]; 5] = [
        [0xa9, 0x05, 0x9c, 0xbb], // transfer
        [0x09, 0x5e, 0xa7, 0xb3], // approve
        [0x23, 0xb8, 0x72, 0xdd], // transferFrom
        [0x70, 0xa0, 0x82, 0x31], // balanceOf
        [0x18, 0x16, 0x0d, 0xdd], // totalSupply
    ];
    for sel in selectors.iter() {
        // well-formed argument encoding
        let mut input = sel.to_vec();
        input.extend(vec![0u8; 64]);
        assert_eq!(classify(&record(input, Some(vec![1u8; 20]))), ClassLabel::Deterministic);
        // truncated, malformed arguments: the selector still decides
        let mut short = sel.to_vec();
        short.extend(vec![0xffu8; 7]);
        assert_eq!(classify(&record(short, None)), ClassLabel::Deterministic);
    }
}

#[test]
fn unknown_call_is_nondeterministic() {
    let tx = record(vec![0xde, 0xad, 0xbe, 0xef, 1, 2, 3, 4, 5, 6, 7, 8], Some(vec![1u8; 20]));
    assert_eq!(classify(&tx), ClassLabel::NonDeterministic);
}

#[test]
fn creation_with_nontrivial_data_is_nondeterministic() {
    // absent recipient and non-trivial call data without a known selector
    let tx = record(vec![0x60, 0x80, 0x60, 0x40, 0x52, 0x34, 0x80, 0x15, 0x61, 0x00], None);
    assert_eq!(classify(&tx), ClassLabel::NonDeterministic);
}

#[test]
fn partition_is_order_preserving_total_split() {
    // deterministic ones carry an empty input and a one-byte tag in value_hex
    let mk = |tag: u8, det: bool| -> TransactionRecord {
        TransactionRecord {
            from: vec![0u8; 20],
            to: Some(vec![1u8; 20]),
            value_hex: vec![tag],
            input: if det {
                Vec::new()
            } else {
                vec![0xde, 0xad, 0xbe, 0xef, 1, 2, 3, 4, 5, 6]
            },
            gas_limit: 21000,
            gas_price: 1,
        }
    };
    let txs = vec![
        mk(0, true),
        mk(1, false),
        mk(2, true),
        mk(3, false),
        mk(4, false),
        mk(5, true),
    ];
    let (det, nondet) = partition(&txs);
    assert_eq!(det.len() + nondet.len(), txs.len());
    let det_tags: Vec<u8> = det.iter().map(|t| t.value_hex[0]).collect();
    let nondet_tags: Vec<u8> = nondet.iter().map(|t| t.value_hex[0]).collect();
    assert_eq!(det_tags, vec![0, 2, 5]);
    assert_eq!(nondet_tags, vec![1, 3, 4]);
}

#[test]
fn partition_of_empty_block() {
    let txs: Vec<TransactionRecord> = Vec::new();
    let (det, nondet) = partition(&txs);
    assert!(det.is_empty());
    assert!(nondet.is_empty());
}
