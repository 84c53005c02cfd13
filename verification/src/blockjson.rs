//! Reading block dumps.
//!
//! A block file is one JSON document: either a bare block object or a
//! JSON-RPC-style envelope with the block under a `result` field.  The
//! document itself is opaque to the proofs; what each extracted field
//! means is stated where the field's bytes are decoded
//! ([`crate::tx`], [`crate::context`]).

use vstd::prelude::*;
use serde_json::Value;
use crate::context::{wf_context, BlockContext};
use crate::tx::{wf_tx, TransactionRecord};

verus! {

#[verifier::external_type_specification]
#[verifier::external_body]
pub struct ExValue(serde_json::Value);

#[verifier::external_type_specification]
#[verifier::external_body]
pub struct ExJsonError(serde_json::Error);

/// Whether serde_json accepts a text as one JSON document.  The verdict
/// of `serde_json::from_str` depends on the text alone, so it can carry
/// a name; nothing else is assumed of it.
pub uninterp spec fn json_parses(s: Seq<char>) -> bool;

/// Relies on `serde_json::from_str` to parse one JSON document; it
/// succeeds exactly on the texts [`json_parses`] names.
#[verifier::external_body]
pub(crate) fn parse_json(text: &str) -> (r: Result<Value, serde_json::Error>)
    ensures
        r is Ok <==> json_parses(text@),
{
    serde_json::from_str::<Value>(text)
}

/// Relies on `serde_json::Value::get` to look up a key of a JSON object.
#[verifier::external_body]
pub(crate) fn json_get<'a>(v: &'a Value, key: &str) -> (r: Option<&'a Value>) {
    v.get(key)
}

/// Relies on `serde_json::Value::as_str` to read a JSON string.
#[verifier::external_body]
pub(crate) fn json_as_str<'a>(v: &'a Value) -> (r: Option<&'a str>) {
    v.as_str()
}

/// Relies on `serde_json::Value::as_array` to read a JSON array.
#[verifier::external_body]
pub(crate) fn json_as_array<'a>(v: &'a Value) -> (r: Option<&'a Vec<Value>>) {
    v.as_array()
}

/// The bytes of a string-valued key of a JSON object, if there is one.
fn field_bytes<'a>(v: &'a Value, key: &str) -> (r: Option<&'a [u8]>) {
    match json_get(v, key) {
        Some(f) => match json_as_str(f) {
            Some(s) => Some(s.as_bytes()),
            None => None,
        },
        None => None,
    }
}

/// The block object of a document: the `result` field of an RPC envelope,
/// or the document itself.
pub fn block_object(doc: &Value) -> (r: &Value) {
    match json_get(doc, "result") {
        Some(b) => b,
        None => doc,
    }
}

/// The transactions array of a block object, if the block has one.
pub fn transactions_array<'a>(block: &'a Value) -> (r: Option<&'a Vec<Value>>) {
    match json_get(block, "transactions") {
        Some(t) => json_as_array(t),
        None => None,
    }
}

/// Decodes one transaction object into a record.  Never fails: every
/// absent or malformed field falls back to its default.
pub fn parse_transaction(v: &Value) -> (t: TransactionRecord)
    ensures
        wf_tx(t@),
{
    TransactionRecord::from_fields(
        field_bytes(v, "from"),
        field_bytes(v, "to"),
        field_bytes(v, "value"),
        field_bytes(v, "input"),
        field_bytes(v, "gas"),
        field_bytes(v, "gasPrice"),
    )
}

/// Decodes a block object's header fields into a context.  Never fails.
pub fn parse_block_context(v: &Value) -> (c: BlockContext)
    ensures
        wf_context(c@),
{
    BlockContext::from_fields(
        field_bytes(v, "number"),
        field_bytes(v, "timestamp"),
        field_bytes(v, "gasLimit"),
        field_bytes(v, "baseFeePerGas"),
        field_bytes(v, "miner"),
    )
}

} // verus!
