//! Hexadecimal and decimal digit strings.
//!
//! Block dumps carry every quantity as an ASCII hex string (usually with a
//! `0x` prefix) and block files carry the block number as a decimal suffix of
//! the file name.  This module gives those strings an exact meaning
//! ([`hex_value`], [`dec_value`], [`hex_bytes`]) and provides verified
//! parsers for them.

use vstd::prelude::*;

verus! {

/// True of the ASCII bytes that are hexadecimal digits.
pub open spec fn is_hex_digit(b: u8) -> bool {
    (48u8 <= b && b <= 57u8) || (97u8 <= b && b <= 102u8) || (65u8 <= b && b <= 70u8)
}

/// Numeric value of one hexadecimal digit (0 for a byte that is none).
pub open spec fn hex_digit_value(b: u8) -> nat {
    if 48u8 <= b && b <= 57u8 {
        (b - 48u8) as nat
    } else if 97u8 <= b && b <= 102u8 {
        (b - 97u8 + 10) as nat
    } else if 65u8 <= b && b <= 70u8 {
        (b - 65u8 + 10) as nat
    } else {
        0
    }
}

pub open spec fn all_hex_digits(s: Seq<u8>) -> bool {
    forall|i: int| 0 <= i < s.len() ==> is_hex_digit(#[trigger] s[i])
}

/// The number denoted by a big-endian string of hexadecimal digits.
pub open spec fn hex_value(s: Seq<u8>) -> nat
    decreases s.len(),
{
    if s.len() == 0 {
        0
    } else {
        hex_value(s.drop_last()) * 16 + hex_digit_value(s.last())
    }
}

/// The bytes denoted by an even-length string of hexadecimal digits,
/// high digit of each byte first.
pub open spec fn hex_bytes(s: Seq<u8>) -> Seq<u8> {
    Seq::new(s.len() / 2, |i: int| (hex_digit_value(s[2 * i]) * 16 + hex_digit_value(s[2 * i + 1])) as u8)
}

/// True of the ASCII bytes that are decimal digits.
pub open spec fn is_dec_digit(b: u8) -> bool {
    48u8 <= b && b <= 57u8
}

pub open spec fn all_dec_digits(s: Seq<u8>) -> bool {
    forall|i: int| 0 <= i < s.len() ==> is_dec_digit(#[trigger] s[i])
}

/// The number denoted by a string of decimal digits.
pub open spec fn dec_value(s: Seq<u8>) -> nat
    decreases s.len(),
{
    if s.len() == 0 {
        0
    } else {
        dec_value(s.drop_last()) * 10 + (s.last() - 48u8) as nat
    }
}

/// A hex string with every leading `0x` marker removed, the way the
/// source dumps prefix their quantities.
pub open spec fn strip_0x(s: Seq<u8>) -> Seq<u8>
    decreases s.len(),
{
    if s.len() >= 2 && s[0] == 48u8 && s[1] == 120u8 {
        strip_0x(s.skip(2))
    } else {
        s
    }
}

/// A longer digit string never denotes a smaller number.
pub proof fn lemma_hex_value_prefix_le(s: Seq<u8>, i: int)
    requires
        0 <= i <= s.len(),
    ensures
        hex_value(s.take(i)) <= hex_value(s),
    decreases s.len() - i,
{
    if i == s.len() {
        assert(s.take(i) =~= s);
    } else {
        assert(s.take(i + 1).drop_last() =~= s.take(i));
        assert(s.take(i + 1).last() == s[i]);
        assert(hex_value(s.take(i)) * 16 >= hex_value(s.take(i))) by (nonlinear_arith);
        lemma_hex_value_prefix_le(s, i + 1);
    }
}

/// As [`lemma_hex_value_prefix_le`], for decimal strings.
pub proof fn lemma_dec_value_prefix_le(s: Seq<u8>, i: int)
    requires
        0 <= i <= s.len(),
    ensures
        dec_value(s.take(i)) <= dec_value(s),
    decreases s.len() - i,
{
    if i == s.len() {
        assert(s.take(i) =~= s);
    } else {
        assert(s.take(i + 1).drop_last() =~= s.take(i));
        assert(s.take(i + 1).last() == s[i]);
        assert(dec_value(s.take(i)) * 10 >= dec_value(s.take(i))) by (nonlinear_arith);
        lemma_dec_value_prefix_le(s, i + 1);
    }
}

/// The value of one hexadecimal digit byte, if it is one.
fn hex_digit_of(b: u8) -> (r: Option<u8>)
    ensures
        r is Some <==> is_hex_digit(b),
        r matches Some(v) ==> v == hex_digit_value(b),
{
    if 48u8 <= b && b <= 57u8 {
        Some(b - 48u8)
    } else if 97u8 <= b && b <= 102u8 {
        Some(b - 97u8 + 10)
    } else if 65u8 <= b && b <= 70u8 {
        Some(b - 65u8 + 10)
    } else {
        None
    }
}

/// Parses a big-endian hexadecimal digit string.  Fails exactly when the
/// string is empty, holds a byte that is no hex digit, or denotes a number
/// that does not fit in a `u128`.
pub fn parse_hex_u128(s: &[u8]) -> (r: Option<u128>)
    ensures
        r is Some <==> (s@.len() > 0 && all_hex_digits(s@) && hex_value(s@) <= u128::MAX),
        r matches Some(v) ==> v == hex_value(s@),
{
    if s.len() == 0 {
        return None;
    }
    let mut acc: u128 = 0;
    let mut i: usize = 0;
    while i < s.len()
        invariant
            0 <= i <= s@.len(),
            all_hex_digits(s@.take(i as int)),
            acc == hex_value(s@.take(i as int)),
        decreases s@.len() - i,
    {
        let b = s[i];
        match hex_digit_of(b) {
            None => {
                assert(!is_hex_digit(s@[i as int]));
                return None;
            },
            Some(d) => {
                proof {
                    assert(s@.take(i + 1).drop_last() =~= s@.take(i as int));
                    assert(s@.take(i + 1).last() == s@[i as int]);
                }
                if acc > (u128::MAX - d as u128) / 16 {
                    proof {
                        let m = u128::MAX - hex_digit_value(b);
                        vstd::arithmetic::div_mod::lemma_fundamental_div_mod(m as int, 16);
                        vstd::arithmetic::div_mod::lemma_mod_bound(m as int, 16);
                        vstd::arithmetic::mul::lemma_mul_inequality(m as int / 16 + 1, acc as int, 16);
                        assert(acc * 16 + hex_digit_value(b) > u128::MAX);
                        lemma_hex_value_prefix_le(s@, i + 1);
                    }
                    return None;
                }
                proof {
                    vstd::arithmetic::div_mod::lemma_fundamental_div_mod(
                        (u128::MAX - hex_digit_value(b)) as int, 16);
                    vstd::arithmetic::div_mod::lemma_mod_bound(
                        (u128::MAX - hex_digit_value(b)) as int, 16);
                    vstd::arithmetic::mul::lemma_mul_inequality(
                        acc as int, (u128::MAX - hex_digit_value(b)) as int / 16, 16);
                }
                acc = acc * 16 + d as u128;
                i = i + 1;
            },
        }
    }
    proof {
        assert(s@.take(s@.len() as int) =~= s@);
    }
    Some(acc)
}

/// As [`parse_hex_u128`], for `u64` quantities.
pub fn parse_hex_u64(s: &[u8]) -> (r: Option<u64>)
    ensures
        r is Some <==> (s@.len() > 0 && all_hex_digits(s@) && hex_value(s@) <= u64::MAX),
        r matches Some(v) ==> v == hex_value(s@),
{
    match parse_hex_u128(s) {
        Some(v) => {
            if v <= u64::MAX as u128 {
                Some(v as u64)
            } else {
                None
            }
        },
        None => None,
    }
}

/// Parses a decimal digit string.  Fails exactly when the string is empty,
/// holds a byte that is no decimal digit, or denotes a number that does not
/// fit in a `u64`.
pub fn parse_dec_u64(s: &[u8]) -> (r: Option<u64>)
    ensures
        r is Some <==> (s@.len() > 0 && all_dec_digits(s@) && dec_value(s@) <= u64::MAX),
        r matches Some(v) ==> v == dec_value(s@),
{
    if s.len() == 0 {
        return None;
    }
    let mut acc: u64 = 0;
    let mut i: usize = 0;
    while i < s.len()
        invariant
            0 <= i <= s@.len(),
            all_dec_digits(s@.take(i as int)),
            acc == dec_value(s@.take(i as int)),
        decreases s@.len() - i,
    {
        let b = s[i];
        if b < 48u8 || b > 57u8 {
            assert(!is_dec_digit(s@[i as int]));
            return None;
        }
        let d = b - 48u8;
        proof {
            assert(s@.take(i + 1).drop_last() =~= s@.take(i as int));
            assert(s@.take(i + 1).last() == s@[i as int]);
        }
        if acc > (u64::MAX - d as u64) / 10 {
            proof {
                let m = u64::MAX - (b - 48u8);
                vstd::arithmetic::div_mod::lemma_fundamental_div_mod(m as int, 10);
                vstd::arithmetic::div_mod::lemma_mod_bound(m as int, 10);
                vstd::arithmetic::mul::lemma_mul_inequality(m as int / 10 + 1, acc as int, 10);
                assert(acc * 10 + (b - 48u8) > u64::MAX);
                lemma_dec_value_prefix_le(s@, i + 1);
            }
            return None;
        }
        proof {
            let m = u64::MAX - (b - 48u8);
            vstd::arithmetic::div_mod::lemma_fundamental_div_mod(m as int, 10);
            vstd::arithmetic::div_mod::lemma_mod_bound(m as int, 10);
            vstd::arithmetic::mul::lemma_mul_inequality(acc as int, m as int / 10, 10);
        }
        acc = acc * 10 + d as u64;
        i = i + 1;
    }
    proof {
        assert(s@.take(s@.len() as int) =~= s@);
    }
    Some(acc)
}

/// Removes every leading `0x` marker from a hex string.
pub fn strip_hex_prefix(s: &[u8]) -> (r: &[u8])
    ensures
        r@ == strip_0x(s@),
{
    let mut t: &[u8] = s;
    while t.len() >= 2 && t[0] == 48u8 && t[1] == 120u8
        invariant
            strip_0x(s@) == strip_0x(t@),
        decreases t@.len(),
    {
        t = vstd::slice::slice_subrange(t, 2, t.len());
    }
    t
}

#[verifier::external_type_specification]
#[verifier::external_body]
pub struct ExFromHexError(hex::FromHexError);

/// Relies on `hex::decode`: it succeeds exactly on even-length strings of
/// hexadecimal digits (upper or lower case) and yields one byte per digit
/// pair, high digit first.
#[verifier::external_body]
fn hex_decode_raw(s: &[u8]) -> (r: Result<Vec<u8>, hex::FromHexError>)
    ensures
        r is Ok <==> (s@.len() % 2 == 0 && all_hex_digits(s@)),
        r matches Ok(v) ==> v@ == hex_bytes(s@),
{
    hex::decode(s)
}

/// Decodes an even-length hexadecimal digit string into bytes.
pub fn hex_decode_bytes(s: &[u8]) -> (r: Option<Vec<u8>>)
    ensures
        r is Some <==> (s@.len() % 2 == 0 && all_hex_digits(s@)),
        r matches Some(v) ==> v@ == hex_bytes(s@),
{
    match hex_decode_raw(s) {
        Ok(v) => Some(v),
        Err(_) => None,
    }
}

} // verus!
