//! Decoding of reply payloads and parsing of amounts and prices, through
//! osmosis_std's protobuf messages and cosmwasm_std's number types.
use std::str::FromStr;
use vstd::prelude::*;

use cosmwasm_std::{Binary, Decimal, Uint128};
use osmosis_std::types::ibc::applications::transfer::v1::MsgTransferResponse;
use osmosis_std::types::osmosis::poolmanager::v1beta1::MsgSwapExactAmountInResponse;

verus! {

/// Number of atomic units in one whole decimal unit.
pub const DECIMAL_FRACTIONAL: u128 = 1_000_000_000_000_000_000;

/// The `token_out_amount` text of a protobuf-encoded swap response, if the bytes decode.
pub uninterp spec fn swap_response_token_out(data: Seq<u8>) -> Option<Seq<char>>;

/// The `sequence` of a protobuf-encoded IBC transfer response, if the bytes decode.
pub uninterp spec fn transfer_response_sequence(data: Seq<u8>) -> Option<u64>;

/// The atomics (units of 10^-18) of a decimal written as text, if it parses.
pub uninterp spec fn decimal_atomics_of(s: Seq<char>) -> Option<u128>;

pub open spec fn is_digit(c: char) -> bool {
    '0' <= c && c <= '9'
}

/// The number a non-empty run of decimal digits denotes.
pub open spec fn digits_value(s: Seq<char>) -> int
    decreases s.len(),
{
    if s.len() == 0 {
        0
    } else {
        digits_value(s.drop_last()) * 10 + (s.last() as int - '0' as int)
    }
}

/// An unsigned integer written as an optional `+` and decimal digits, when it fits in 128 bits.
pub open spec fn parsed_uint128(s: Seq<char>) -> Option<u128> {
    let d = if s.len() > 0 && s[0] == '+' { s.drop_first() } else { s };
    if d.len() > 0 && (forall|i: int| 0 <= i < d.len() ==> #[trigger] is_digit(d[i]))
        && digits_value(d) <= u128::MAX {
        Some(digits_value(d) as u128)
    } else {
        None
    }
}

/// `n / d` as decimal atomics, truncated; none when `d` is zero or the result exceeds 128 bits.
pub open spec fn decimal_ratio(n: int, d: int) -> Option<u128> {
    if d == 0 {
        None
    } else if n * DECIMAL_FRACTIONAL / d <= u128::MAX {
        Some((n * DECIMAL_FRACTIONAL / d) as u128)
    } else {
        None
    }
}

pub open spec fn text_view(r: Option<String>) -> Option<Seq<char>> {
    match r {
        Some(s) => Some(s@),
        None => None,
    }
}

/// Relies on osmosis_std's `TryFrom<Binary>` for `MsgSwapExactAmountInResponse`
/// (prost decoding): the decoded `token_out_amount`, a function of the bytes.
#[verifier::external_body]
pub(crate) fn decode_swap_response(data: &Vec<u8>) -> (r: Option<String>)
    ensures
        text_view(r) == swap_response_token_out(data@),
{
    match MsgSwapExactAmountInResponse::try_from(Binary::new(data.clone())) {
        Ok(m) => Some(m.token_out_amount),
        Err(_) => None,
    }
}

/// Relies on osmosis_std's `TryFrom<Binary>` for `MsgTransferResponse`
/// (prost decoding): the decoded `sequence`, a function of the bytes.
#[verifier::external_body]
pub(crate) fn decode_transfer_response(data: &Vec<u8>) -> (r: Option<u64>)
    ensures
        r == transfer_response_sequence(data@),
{
    match MsgTransferResponse::try_from(Binary::new(data.clone())) {
        Ok(m) => Some(m.sequence),
        Err(_) => None,
    }
}

/// Relies on cosmwasm_std's `Uint128::from_str`, which parses as `u128::from_str`:
/// an optional `+`, then one or more decimal digits, within range.
#[verifier::external_body]
pub(crate) fn parse_uint128(s: &str) -> (r: Option<u128>)
    ensures
        r == parsed_uint128(s@),
{
    match Uint128::from_str(s) {
        Ok(u) => Some(u.u128()),
        Err(_) => None,
    }
}

/// Relies on cosmwasm_std's `Decimal::from_str`: the atomics of the parsed
/// decimal, a function of the text.
#[verifier::external_body]
pub(crate) fn parse_decimal(s: &str) -> (r: Option<u128>)
    ensures
        r == decimal_atomics_of(s@),
{
    match Decimal::from_str(s) {
        Ok(d) => Some(d.atomics().u128()),
        Err(_) => None,
    }
}

/// Relies on cosmwasm_std's `Decimal::checked_from_ratio`: `n * 10^18 / d`
/// computed in 256 bits and truncated; an error on a zero `d` or a result
/// beyond 128 bits.
#[verifier::external_body]
pub(crate) fn checked_decimal_ratio(n: u128, d: u128) -> (r: Option<u128>)
    ensures
        r == decimal_ratio(n as int, d as int),
{
    match Decimal::checked_from_ratio(n, d) {
        Ok(x) => Some(x.atomics().u128()),
        Err(_) => None,
    }
}

} // verus!
