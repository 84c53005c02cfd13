//! The transaction classifier and the partition it induces.
//!
//! Classification is a pure, total function of a transaction's static
//! fields: it never reads execution state and it never fails.  The label
//! is a scheduling hint, not a dependency analysis.
//!
//! It reads the decoded call data, so an input field whose hex digits are
//! malformed decodes to empty call data and the transaction is labelled
//! deterministic, like any other plain value transfer.

use vstd::prelude::*;
use crate::tx::{TransactionRecord, TxData};

verus! {

/// The class a transaction is assigned by the static scheduling heuristic.
#[derive(Clone, Copy, Debug, PartialEq, Eq, Structural)]
pub enum ClassLabel {
    Deterministic,
    NonDeterministic,
}

/// The five known 4-byte selectors that mark a call as deterministic:
/// ERC-20 `transfer`, `approve`, `transferFrom`, `balanceOf`, `totalSupply`.
pub open spec fn is_known_selector(s: Seq<u8>) -> bool {
    ||| s == seq![0xa9u8, 0x05u8, 0x9cu8, 0xbbu8]
    ||| s == seq![0x09u8, 0x5eu8, 0xa7u8, 0xb3u8]
    ||| s == seq![0x23u8, 0xb8u8, 0x72u8, 0xddu8]
    ||| s == seq![0x70u8, 0xa0u8, 0x82u8, 0x31u8]
    ||| s == seq![0x18u8, 0x16u8, 0x0du8, 0xddu8]
}

/// The labelling policy, in priority order:
/// empty call data is a plain value transfer; call data shorter than ten
/// bytes is a trivial call; a known selector is deterministic whatever
/// follows it; everything else — contract creations (absent or empty
/// recipient) among them — is non-deterministic.
pub open spec fn classify_data(input: Seq<u8>, to: Option<Seq<u8>>) -> ClassLabel {
    if input.len() == 0 {
        ClassLabel::Deterministic
    } else if input.len() < 10 {
        ClassLabel::Deterministic
    } else if is_known_selector(input.take(4)) {
        ClassLabel::Deterministic
    } else if to is None || (to matches Some(a) && a.len() == 0) {
        ClassLabel::NonDeterministic
    } else {
        ClassLabel::NonDeterministic
    }
}

/// The label of one transaction record.
pub open spec fn classify_tx(d: TxData) -> ClassLabel {
    classify_data(d.input, d.to)
}

/// Labels one transaction.  Pure and total: no state is read and no
/// input is rejected.
pub fn classify(tx: &TransactionRecord) -> (c: ClassLabel)
    ensures
        c == classify_tx(tx@),
{
    let n = tx.input.len();
    if n == 0 {
        return ClassLabel::Deterministic;
    }
    if n < 10 {
        return ClassLabel::Deterministic;
    }
    let s0 = tx.input[0];
    let s1 = tx.input[1];
    let s2 = tx.input[2];
    let s3 = tx.input[3];
    proof {
        assert(tx@.input.take(4).len() == 4);
        assert(tx@.input.take(4)[0] == s0);
        assert(tx@.input.take(4)[1] == s1);
        assert(tx@.input.take(4)[2] == s2);
        assert(tx@.input.take(4)[3] == s3);
    }
    if (s0 == 0xa9 && s1 == 0x05 && s2 == 0x9c && s3 == 0xbb) || (s0 == 0x09 && s1 == 0x5e && s2
        == 0xa7 && s3 == 0xb3) || (s0 == 0x23 && s1 == 0xb8 && s2 == 0x72 && s3 == 0xdd) || (s0
        == 0x70 && s1 == 0xa0 && s2 == 0x82 && s3 == 0x31) || (s0 == 0x18 && s1 == 0x16 && s2
        == 0x0d && s3 == 0xdd) {
        proof {
            if s0 == 0xa9 {
                assert(tx@.input.take(4) =~= seq![0xa9u8, 0x05u8, 0x9cu8, 0xbbu8]);
            } else if s0 == 0x09 {
                assert(tx@.input.take(4) =~= seq![0x09u8, 0x5eu8, 0xa7u8, 0xb3u8]);
            } else if s0 == 0x23 {
                assert(tx@.input.take(4) =~= seq![0x23u8, 0xb8u8, 0x72u8, 0xddu8]);
            } else if s0 == 0x70 {
                assert(tx@.input.take(4) =~= seq![0x70u8, 0xa0u8, 0x82u8, 0x31u8]);
            } else {
                assert(tx@.input.take(4) =~= seq![0x18u8, 0x16u8, 0x0du8, 0xddu8]);
            }
        }
        return ClassLabel::Deterministic;
    }
    proof {
        assert(!is_known_selector(tx@.input.take(4)));
    }
    ClassLabel::NonDeterministic
}

/// The views of a sequence of records.
pub open spec fn tx_views(s: Seq<TransactionRecord>) -> Seq<TxData> {
    Seq::new(s.len(), |i: int| s[i]@)
}

/// The ordered subsequence of `s` whose label is `label`.
pub open spec fn partition_by(s: Seq<TxData>, label: ClassLabel) -> Seq<TxData>
    decreases s.len(),
{
    if s.len() == 0 {
        Seq::empty()
    } else {
        let rest = partition_by(s.drop_last(), label);
        if classify_tx(s.last()) == label {
            rest.push(s.last())
        } else {
            rest
        }
    }
}

/// Splits a block's transactions into the deterministic partition and the
/// non-deterministic partition.  Each partition keeps the original order
/// of its members.
pub fn partition(txs: &Vec<TransactionRecord>) -> (r: (
    Vec<TransactionRecord>,
    Vec<TransactionRecord>,
))
    ensures
        tx_views(r.0@) == partition_by(tx_views(txs@), ClassLabel::Deterministic),
        tx_views(r.1@) == partition_by(tx_views(txs@), ClassLabel::NonDeterministic),
{
    let ghost vs = tx_views(txs@);
    let mut det: Vec<TransactionRecord> = Vec::new();
    let mut nondet: Vec<TransactionRecord> = Vec::new();
    let mut i: usize = 0;
    while i < txs.len()
        invariant
            i <= txs@.len(),
            vs == tx_views(txs@),
            tx_views(det@) == partition_by(vs.take(i as int), ClassLabel::Deterministic),
            tx_views(nondet@) == partition_by(vs.take(i as int), ClassLabel::NonDeterministic),
        decreases txs@.len() - i,
    {
        let c = txs[i].clone();
        let lbl = classify(&c);
        proof {
            assert(vs.take(i + 1).drop_last() =~= vs.take(i as int));
            assert(vs.take(i + 1).last() == vs[i as int]);
            assert(vs[i as int] == txs@[i as int]@);
        }
        if lbl == ClassLabel::Deterministic {
            det.push(c);
            proof {
                assert(tx_views(det@) =~= partition_by(vs.take(i + 1), ClassLabel::Deterministic));
                assert(tx_views(nondet@) =~= partition_by(
                    vs.take(i + 1),
                    ClassLabel::NonDeterministic,
                ));
            }
        } else {
            nondet.push(c);
            proof {
                assert(tx_views(det@) =~= partition_by(vs.take(i + 1), ClassLabel::Deterministic));
                assert(tx_views(nondet@) =~= partition_by(
                    vs.take(i + 1),
                    ClassLabel::NonDeterministic,
                ));
            }
        }
        i = i + 1;
    }
    proof {
        assert(vs.take(txs@.len() as int) =~= vs);
    }
    (det, nondet)
}

/// Partitioning is a total split: every transaction of the block stands in
/// exactly one of the two partitions (as multisets, duplicates counted),
/// and the two lengths sum to the block's length.
pub proof fn lemma_partition_complete(s: Seq<TxData>)
    ensures
        partition_by(s, ClassLabel::Deterministic).len() + partition_by(
            s,
            ClassLabel::NonDeterministic,
        ).len() == s.len(),
        partition_by(s, ClassLabel::Deterministic).to_multiset().add(
            partition_by(s, ClassLabel::NonDeterministic).to_multiset(),
        ) == s.to_multiset(),
    decreases s.len(),
{
    broadcast use vstd::seq_lib::group_seq_properties;

    let d = partition_by(s, ClassLabel::Deterministic);
    let n = partition_by(s, ClassLabel::NonDeterministic);
    if s.len() == 0 {
        assert(s.to_multiset() =~= d.to_multiset().add(n.to_multiset()));
    } else {
        lemma_partition_complete(s.drop_last());
        let pd = partition_by(s.drop_last(), ClassLabel::Deterministic);
        let pn = partition_by(s.drop_last(), ClassLabel::NonDeterministic);
        pd.to_multiset_ensures();
        pn.to_multiset_ensures();
        s.drop_last().to_multiset_ensures();
        assert(s =~= s.drop_last().push(s.last()));
        assert(s.to_multiset() =~= s.drop_last().to_multiset().insert(s.last()));
        if classify_tx(s.last()) == ClassLabel::Deterministic {
            assert(d == pd.push(s.last()));
            assert(d.to_multiset() =~= pd.to_multiset().insert(s.last()));
            assert(d.to_multiset().add(n.to_multiset()) =~= s.to_multiset());
        } else {
            assert(n == pn.push(s.last()));
            assert(n.to_multiset() =~= pn.to_multiset().insert(s.last()));
            assert(d.to_multiset().add(n.to_multiset()) =~= s.to_multiset());
        }
    }
}

/// Every member of a partition is a transaction of the block it was
/// split from.
pub proof fn lemma_partition_members(s: Seq<TxData>, label: ClassLabel)
    ensures
        forall|i: int|
            0 <= i < partition_by(s, label).len() ==> s.contains(
                #[trigger] partition_by(s, label)[i],
            ),
    decreases s.len(),
{
    if s.len() > 0 {
        lemma_partition_members(s.drop_last(), label);
        let p = partition_by(s, label);
        let pd = partition_by(s.drop_last(), label);
        assert forall|i: int| 0 <= i < p.len() implies s.contains(p[i]) by {
            if i < pd.len() {
                assert(s.drop_last().contains(pd[i]));
                let j = choose|j: int|
                    0 <= j < s.drop_last().len() && s.drop_last()[j] == pd[i];
                assert(s[j] == pd[i]);
            } else {
                assert(p[i] == s.last());
                assert(s[s.len() - 1] == s.last());
            }
        }
    }
}

/// Every transaction with empty call data is labelled deterministic.
pub proof fn lemma_classify_empty_input(d: TxData)
    requires
        d.input.len() == 0,
    ensures
        classify_tx(d) == ClassLabel::Deterministic,
{
}

/// Every transaction whose call data starts with one of the five known
/// selectors is labelled deterministic, whatever trailing bytes follow —
/// truncated or malformed argument encodings included.
pub proof fn lemma_classify_known_selector(d: TxData)
    requires
        d.input.len() >= 4,
        is_known_selector(d.input.take(4)),
    ensures
        classify_tx(d) == ClassLabel::Deterministic,
{
}

/// Every transaction with an absent or empty recipient and non-trivial
/// call data — at least ten bytes, not led by a known selector — is
/// labelled non-deterministic.  (With a known selector the selector rule
/// wins and the label is deterministic.)
pub proof fn lemma_classify_creation(d: TxData)
    requires
        d.input.len() >= 10,
        !is_known_selector(d.input.take(4)),
        d.to is None || (d.to matches Some(a) && a.len() == 0),
    ensures
        classify_tx(d) == ClassLabel::NonDeterministic,
{
}

} // verus!
