//! Transaction records.
//!
//! A [`TransactionRecord`] is the immutable view over one transaction's
//! fields as decoded from a source block dump.  Every field is decoded
//! independently; a field that is absent or malformed falls back to a
//! default value and never aborts the enclosing transaction.

use vstd::prelude::*;
use crate::digits::{
    all_hex_digits, hex_bytes, hex_value, strip_0x, hex_decode_bytes, parse_hex_u128,
    parse_hex_u64, strip_hex_prefix,
};

verus! {

/// Gas limit assumed when a transaction names none (or a malformed one).
pub const DEFAULT_TX_GAS_LIMIT: u64 = 30000000;

/// The fields of one transaction, as decoded from a source block dump.
pub struct TransactionRecord {
    /// Sender address, always 20 bytes (all zero when the source field was
    /// absent or malformed).
    pub from: Vec<u8>,
    /// Recipient address, always 20 bytes when present; `None` marks a
    /// contract creation (absent, empty or `null` source field).
    pub to: Option<Vec<u8>>,
    /// The raw hex digits of the transferred value, `0x` markers removed.
    /// The value is only handed on to the execution engine, never read.
    pub value_hex: Vec<u8>,
    /// Decoded call data (empty when the source field was absent or
    /// malformed).
    pub input: Vec<u8>,
    /// Gas limit, [`DEFAULT_TX_GAS_LIMIT`] when absent or malformed.
    pub gas_limit: u64,
    /// Gas price, zero when absent or malformed.
    pub gas_price: u128,
}

/// Mathematical image of a [`TransactionRecord`].
pub ghost struct TxData {
    pub from: Seq<u8>,
    pub to: Option<Seq<u8>>,
    pub value_hex: Seq<u8>,
    pub input: Seq<u8>,
    pub gas_limit: u64,
    pub gas_price: u128,
}

impl View for TransactionRecord {
    type V = TxData;

    open spec fn view(&self) -> TxData {
        TxData {
            from: self.from@,
            to: match self.to {
                Some(ref a) => Some(a@),
                None => None,
            },
            value_hex: self.value_hex@,
            input: self.input@,
            gas_limit: self.gas_limit,
            gas_price: self.gas_price,
        }
    }
}

/// A well-formed record holds 20-byte addresses.
pub open spec fn wf_tx(d: TxData) -> bool {
    &&& d.from.len() == 20
    &&& (d.to matches Some(a) ==> a.len() == 20)
}

/// The all-zero address a malformed or absent address field falls back to.
pub open spec fn zero_address() -> Seq<u8> {
    Seq::new(20, |i: int| 0u8)
}

/// The view of an optional byte-slice field.
pub open spec fn field_view(f: Option<&[u8]>) -> Option<Seq<u8>> {
    match f {
        Some(b) => Some(b@),
        None => None,
    }
}

/// The view of an optional byte-vector value.
pub open spec fn opt_bytes_view(o: Option<Vec<u8>>) -> Option<Seq<u8>> {
    match o {
        Some(v) => Some(v@),
        None => None,
    }
}

/// The address an optional hex field denotes: its 20 decoded bytes, or all
/// zeroes when the field is absent or does not decode to exactly 20 bytes.
pub open spec fn address_of_field(f: Option<Seq<u8>>) -> Seq<u8> {
    match f {
        None => zero_address(),
        Some(s) => {
            let t = strip_0x(s);
            if t.len() == 40 && all_hex_digits(t) {
                hex_bytes(t)
            } else {
                zero_address()
            }
        },
    }
}

/// The ASCII bytes of the word `null`, which some dumps write for an
/// absent recipient.
pub open spec fn null_text() -> Seq<u8> {
    seq![110u8, 117u8, 108u8, 108u8]
}

/// The recipient an optional hex field denotes: `None` (contract creation)
/// when the field is absent, empty or the word `null`, otherwise the
/// address it denotes.
pub open spec fn recipient_of_field(f: Option<Seq<u8>>) -> Option<Seq<u8>> {
    match f {
        None => None,
        Some(s) => if s.len() == 0 || s == null_text() {
            None
        } else {
            Some(address_of_field(Some(s)))
        },
    }
}

/// The call data an optional hex field denotes, empty when the field is
/// absent or malformed.
pub open spec fn call_data_of_field(f: Option<Seq<u8>>) -> Seq<u8> {
    match f {
        None => Seq::empty(),
        Some(s) => {
            let t = strip_0x(s);
            if t.len() % 2 == 0 && all_hex_digits(t) {
                hex_bytes(t)
            } else {
                Seq::empty()
            }
        },
    }
}

/// The `u64` quantity an optional hex field denotes, or `default` when the
/// field is absent, malformed or out of range.
pub open spec fn quantity_of_field(f: Option<Seq<u8>>, default: u64) -> u64 {
    match f {
        None => default,
        Some(s) => {
            let t = strip_0x(s);
            if t.len() > 0 && all_hex_digits(t) && hex_value(t) <= u64::MAX {
                hex_value(t) as u64
            } else {
                default
            }
        },
    }
}

/// As [`quantity_of_field`], for `u128` quantities with default zero.
pub open spec fn wide_quantity_of_field(f: Option<Seq<u8>>) -> u128 {
    match f {
        None => 0,
        Some(s) => {
            let t = strip_0x(s);
            if t.len() > 0 && all_hex_digits(t) && hex_value(t) <= u128::MAX {
                hex_value(t) as u128
            } else {
                0
            }
        },
    }
}

/// The raw value digits an optional hex field carries, `0x` markers removed.
pub open spec fn raw_hex_of_field(f: Option<Seq<u8>>) -> Seq<u8> {
    match f {
        None => Seq::empty(),
        Some(s) => strip_0x(s),
    }
}

fn zero_address_vec() -> (r: Vec<u8>)
    ensures
        r@ == zero_address(),
{
    let mut v: Vec<u8> = Vec::new();
    let mut i: usize = 0;
    while i < 20
        invariant
            i <= 20,
            v@ =~= zero_address().take(i as int),
        decreases 20 - i,
    {
        v.push(0);
        i = i + 1;
    }
    proof {
        assert(v@ =~= zero_address());
    }
    v
}

/// Decodes an optional address field, falling back to the zero address.
pub fn decode_address_field(f: Option<&[u8]>) -> (r: Vec<u8>)
    ensures
        r@ == address_of_field(field_view(f)),
        r@.len() == 20,
{
    match f {
        None => zero_address_vec(),
        Some(s) => {
            let t = strip_hex_prefix(s);
            if t.len() == 40 {
                match hex_decode_bytes(t) {
                    Some(v) => v,
                    None => zero_address_vec(),
                }
            } else {
                zero_address_vec()
            }
        },
    }
}

/// Decodes an optional recipient field; `None` is a contract creation.
pub fn decode_recipient_field(f: Option<&[u8]>) -> (r: Option<Vec<u8>>)
    ensures
        opt_bytes_view(r) == recipient_of_field(field_view(f)),
        r matches Some(a) ==> a@.len() == 20,
{
    match f {
        None => None,
        Some(s) => {
            if s.len() == 0 {
                return None;
            }
            if s.len() == 4 && s[0] == 110 && s[1] == 117 && s[2] == 108 && s[3] == 108 {
                proof {
                    assert(s@ =~= null_text());
                }
                return None;
            }
            proof {
                if s@ == null_text() {
                    assert(s@.len() == 4);
                    assert(s@[0] == 110 && s@[1] == 117 && s@[2] == 108 && s@[3] == 108);
                }
            }
            Some(decode_address_field(Some(s)))
        },
    }
}

/// Decodes an optional call-data field, falling back to empty data.
pub fn decode_call_data_field(f: Option<&[u8]>) -> (r: Vec<u8>)
    ensures
        r@ == call_data_of_field(field_view(f)),
{
    match f {
        None => Vec::new(),
        Some(s) => {
            let t = strip_hex_prefix(s);
            match hex_decode_bytes(t) {
                Some(v) => v,
                None => Vec::new(),
            }
        },
    }
}

/// Decodes an optional `u64` quantity field with the given fallback.
pub fn decode_quantity_field(f: Option<&[u8]>, default: u64) -> (r: u64)
    ensures
        r == quantity_of_field(field_view(f), default),
{
    match f {
        None => default,
        Some(s) => {
            let t = strip_hex_prefix(s);
            match parse_hex_u64(t) {
                Some(v) => v,
                None => default,
            }
        },
    }
}

/// Decodes an optional `u128` quantity field with fallback zero.
pub fn decode_wide_quantity_field(f: Option<&[u8]>) -> (r: u128)
    ensures
        r == wide_quantity_of_field(field_view(f)),
{
    match f {
        None => 0,
        Some(s) => {
            let t = strip_hex_prefix(s);
            match parse_hex_u128(t) {
                Some(v) => v,
                None => 0,
            }
        },
    }
}

/// Copies the raw digits of an optional hex field, `0x` markers removed.
pub fn copy_raw_hex_field(f: Option<&[u8]>) -> (r: Vec<u8>)
    ensures
        r@ == raw_hex_of_field(field_view(f)),
{
    match f {
        None => Vec::new(),
        Some(s) => vstd::slice::slice_to_vec(strip_hex_prefix(s)),
    }
}

impl TransactionRecord {
    /// Builds one record from the six raw source fields.  Construction
    /// never fails: each field degrades to its default independently.
    pub fn from_fields(
        from: Option<&[u8]>,
        to: Option<&[u8]>,
        value: Option<&[u8]>,
        input: Option<&[u8]>,
        gas: Option<&[u8]>,
        gas_price: Option<&[u8]>,
    ) -> (t: TransactionRecord)
        ensures
            t@.from == address_of_field(field_view(from)),
            t@.to == recipient_of_field(field_view(to)),
            t@.value_hex == raw_hex_of_field(field_view(value)),
            t@.input == call_data_of_field(field_view(input)),
            t@.gas_limit == quantity_of_field(field_view(gas), DEFAULT_TX_GAS_LIMIT),
            t@.gas_price == wide_quantity_of_field(field_view(gas_price)),
            wf_tx(t@),
    {
        TransactionRecord {
            from: decode_address_field(from),
            to: decode_recipient_field(to),
            value_hex: copy_raw_hex_field(value),
            input: decode_call_data_field(input),
            gas_limit: decode_quantity_field(gas, DEFAULT_TX_GAS_LIMIT),
            gas_price: decode_wide_quantity_field(gas_price),
        }
    }
}

fn clone_bytes(v: &Vec<u8>) -> (r: Vec<u8>)
    ensures
        r@ == v@,
{
    vstd::slice::slice_to_vec(v.as_slice())
}

impl Clone for TransactionRecord {
    /// A clone carries the same view.
    fn clone(&self) -> (r: Self)
        ensures
            r@ == self@,
    {
        TransactionRecord {
            from: clone_bytes(&self.from),
            to: match &self.to {
                Some(a) => Some(clone_bytes(a)),
                None => None,
            },
            value_hex: clone_bytes(&self.value_hex),
            input: clone_bytes(&self.input),
            gas_limit: self.gas_limit,
            gas_price: self.gas_price,
        }
    }
}

} // verus!
