//! The per-block execution context.
//!
//! A [`BlockContext`] holds the immutable execution parameters shared by
//! all transactions of one block.  Each hex-encoded header field is
//! decoded independently; a field that is absent or fails to parse falls
//! back to zero rather than aborting construction — the builder never
//! fails.

use vstd::prelude::*;
use crate::tx::{address_of_field, decode_address_field, decode_quantity_field, field_view,
    quantity_of_field};

verus! {

/// Immutable execution parameters shared by all transactions of a block.
pub struct BlockContext {
    pub number: u64,
    pub timestamp: u64,
    pub gas_limit: u64,
    pub base_fee: u64,
    /// Coinbase (miner) address, always 20 bytes.
    pub coinbase: Vec<u8>,
}

/// Mathematical image of a [`BlockContext`].
pub ghost struct BlockContextData {
    pub number: u64,
    pub timestamp: u64,
    pub gas_limit: u64,
    pub base_fee: u64,
    pub coinbase: Seq<u8>,
}

impl View for BlockContext {
    type V = BlockContextData;

    open spec fn view(&self) -> BlockContextData {
        BlockContextData {
            number: self.number,
            timestamp: self.timestamp,
            gas_limit: self.gas_limit,
            base_fee: self.base_fee,
            coinbase: self.coinbase@,
        }
    }
}

/// A well-formed context holds a 20-byte coinbase address.
pub open spec fn wf_context(c: BlockContextData) -> bool {
    c.coinbase.len() == 20
}

impl BlockContext {
    /// Builds the context of one block from its five raw header fields.
    /// Construction never fails: each field degrades to its default
    /// independently.
    pub fn from_fields(
        number: Option<&[u8]>,
        timestamp: Option<&[u8]>,
        gas_limit: Option<&[u8]>,
        base_fee: Option<&[u8]>,
        miner: Option<&[u8]>,
    ) -> (c: BlockContext)
        ensures
            c@.number == quantity_of_field(field_view(number), 0),
            c@.timestamp == quantity_of_field(field_view(timestamp), 0),
            c@.gas_limit == quantity_of_field(field_view(gas_limit), 0),
            c@.base_fee == quantity_of_field(field_view(base_fee), 0),
            c@.coinbase == address_of_field(field_view(miner)),
            wf_context(c@),
    {
        BlockContext {
            number: decode_quantity_field(number, 0),
            timestamp: decode_quantity_field(timestamp, 0),
            gas_limit: decode_quantity_field(gas_limit, 0),
            base_fee: decode_quantity_field(base_fee, 0),
            coinbase: decode_address_field(miner),
        }
    }
}

} // verus!
