//! Price-impact trade sizing: the largest halving of an input amount whose
//! quoted trade stays within a price-impact bound.
use vstd::arithmetic::div_mod::lemma_div_denominator;
use vstd::arithmetic::power2::{lemma_pow2_unfold, pow2};
use vstd::prelude::*;

use crate::codec::{
    checked_decimal_ratio, decimal_atomics_of, decimal_ratio, parse_decimal, parse_uint128,
    parsed_uint128,
};
use crate::types::{Coin, ContractError, Decimal, PriceImpactTradeResponse};

verus! {

/// `a` halved `k` times, truncating each time.
pub open spec fn halved(a: nat, k: nat) -> nat
    decreases k,
{
    if k == 0 {
        a
    } else {
        halved(a, (k - 1) as nat) / 2
    }
}

/// Whether a quote of `out` for `amount` keeps the trade within the bound.
///
/// The bound is `max - (spot - twap) / twap` and the trade's deviation is
/// `(spot - out / amount) / spot`; the test is the same inequality with both
/// sides moved to non-negative terms: `spot / twap <= max + (out / amount) / spot`,
/// each quotient a decimal truncated to 18 digits. `None` when a quotient
/// leaves the decimal range or divides by zero.
pub open spec fn within_bound(spot_over_twap: u128, max: u128, spot: u128, amount: u128, out: u128) -> Option<bool> {
    match decimal_ratio(out as int, amount as int) {
        None => None,
        Some(price) => match decimal_ratio(price as int, spot as int) {
            None => None,
            Some(q) => Some(spot_over_twap <= max + q),
        },
    }
}

/// The verdict on one quote: a zero output fails, a trade within the bound
/// is taken (`true`), one beyond it is not (`false`).
pub open spec fn quote_verdict(spot_over_twap: u128, max: u128, spot: u128, amount: u128, out: u128) -> Result<
    bool,
    ContractError,
> {
    if out == 0 {
        Err(ContractError::ZeroTokenOut)
    } else {
        match within_bound(spot_over_twap, max, spot, amount, out) {
            None => Err(ContractError::NumericError),
            Some(b) => Ok(b),
        }
    }
}

/// Judges the pool's quote of `out` for an input of `amount`.
pub fn assess_quote(spot_over_twap: u128, max: u128, spot: u128, amount: u128, out: u128) -> (r: Result<
    bool,
    ContractError,
>)
    ensures
        r == quote_verdict(spot_over_twap, max, spot, amount, out),
{
    if out == 0 {
        return Err(ContractError::ZeroTokenOut);
    }
    let price = match checked_decimal_ratio(out, amount) {
        None => return Err(ContractError::NumericError),
        Some(p) => p,
    };
    let q = match checked_decimal_ratio(price, spot) {
        None => return Err(ContractError::NumericError),
        Some(q) => q,
    };
    Ok(spot_over_twap <= q || spot_over_twap - q <= max)
}

/// Reads the pool's quoted output amount, which it reports as text.
pub fn quoted_amount(token_out_amount: &str) -> (r: Result<u128, ContractError>)
    ensures
        r == match parsed_uint128(token_out_amount@) {
            Some(a) => Ok::<u128, ContractError>(a),
            None => Err(ContractError::InvalidQuote),
        },
{
    match parse_uint128(token_out_amount) {
        Some(a) => Ok(a),
        None => Err(ContractError::InvalidQuote),
    }
}

/// The pool quoted `amount` beyond the bound.
pub open spec fn rejected<F: Fn(u128) -> Result<u128, ContractError>>(
    estimate_out: F,
    spot_over_twap: u128,
    max: u128,
    spot: u128,
    amount: u128,
) -> bool {
    exists|out: u128|
        estimate_out.ensures((amount,), Ok::<u128, ContractError>(out)) && #[trigger] quote_verdict(
            spot_over_twap,
            max,
            spot,
            amount,
            out,
        ) == Ok::<bool, ContractError>(false)
}

/// How the search can stop at `amount` with error `e`: the input is spent,
/// the quote failed, or the quote was zero or out of the decimal range.
pub open spec fn stopped_with<F: Fn(u128) -> Result<u128, ContractError>>(
    estimate_out: F,
    spot_over_twap: u128,
    max: u128,
    spot: u128,
    amount: u128,
    e: ContractError,
) -> bool {
    ||| amount == 0 && e == ContractError::NumericError
    ||| amount > 0 && estimate_out.ensures((amount,), Err::<u128, ContractError>(e))
    ||| amount > 0 && exists|out: u128|
        estimate_out.ensures((amount,), Ok::<u128, ContractError>(out)) && #[trigger] quote_verdict(
            spot_over_twap,
            max,
            spot,
            amount,
            out,
        ) == Err::<bool, ContractError>(e)
}

/// What the search owes, given the spot price as a decimal: on success, an
/// input halved some `k` times, still positive, whose quote the pool gave
/// and which is within the bound, every fewer halving having been quoted
/// beyond it; on failure, the same history up to the halving where it
/// stopped, and why it stopped there.
pub open spec fn search_outcome<F: Fn(u128) -> Result<u128, ContractError>>(
    estimate_out: F,
    input_coin: Coin,
    to_coin_denom: String,
    spot: u128,
    max: u128,
    twap: u128,
    r: Result<PriceImpactTradeResponse, ContractError>,
) -> bool {
    &&& decimal_ratio(spot as int, twap as int) is None ==> r == Err::<
        PriceImpactTradeResponse,
        ContractError,
    >(ContractError::NumericError)
    &&& input_coin.amount == 0 ==> r is Err
    &&& (r is Err && decimal_ratio(spot as int, twap as int) is Some) ==> {
        let sot = decimal_ratio(spot as int, twap as int)->Some_0;
        exists|k: nat|
            stopped_with(
                estimate_out,
                sot,
                max,
                spot,
                halved(input_coin.amount as nat, k) as u128,
                r->Err_0,
            ) && (forall|j: nat|
                j < k ==> rejected(estimate_out, sot, max, spot, #[trigger] halved(input_coin.amount as nat, j) as u128))
    }
    &&& r is Ok ==> {
        let resp = r->Ok_0;
        let sot = decimal_ratio(spot as int, twap as int)->Some_0;
        &&& resp.amount_in.denom == input_coin.denom
        &&& resp.amount_out.denom == to_coin_denom
        &&& resp.amount_in.amount > 0
        &&& estimate_out.ensures((resp.amount_in.amount,), Ok::<u128, ContractError>(resp.amount_out.amount))
        &&& quote_verdict(sot, max, spot, resp.amount_in.amount, resp.amount_out.amount) == Ok::<
            bool,
            ContractError,
        >(true)
        &&& exists|k: nat|
            halved(input_coin.amount as nat, k) == resp.amount_in.amount && (forall|j: nat|
                j < k ==> rejected(estimate_out, sot, max, spot, #[trigger] halved(input_coin.amount as nat, j) as u128))
    }
}

proof fn lemma_halved_le(a: nat, k: nat)
    ensures
        halved(a, k) <= a,
    decreases k,
{
    if k > 0 {
        lemma_halved_le(a, (k - 1) as nat);
    }
}

/// Searches for the largest halving of the input that the pool trades within
/// the price-impact bound, given the pool's spot price as a decimal.
/// `estimate_out` is the pool's quote: the output for an input amount.
/// The search fails once the input has been halved to zero.
pub fn estimate_with_spot_price<F: Fn(u128) -> Result<u128, ContractError>>(
    input_coin: Coin,
    to_coin_denom: String,
    spot_price: Decimal,
    max_price_impact: Decimal,
    twap_price: Decimal,
    estimate_out: F,
) -> (r: Result<PriceImpactTradeResponse, ContractError>)
    requires
        forall|a: u128| estimate_out.requires((a,)),
    ensures
        search_outcome(
            estimate_out,
            input_coin,
            to_coin_denom,
            spot_price.atomics,
            max_price_impact.atomics,
            twap_price.atomics,
            r,
        ),
{
    let spot = spot_price.atomics;
    let max = max_price_impact.atomics;
    let spot_over_twap = match checked_decimal_ratio(spot, twap_price.atomics) {
        None => return Err(ContractError::NumericError),
        Some(x) => x,
    };
    let mut amount: u128 = input_coin.amount;
    let ghost mut k: nat = 0;
    while amount > 0
        invariant
            amount as nat == halved(input_coin.amount as nat, k),
            spot == spot_price.atomics,
            max == max_price_impact.atomics,
            decimal_ratio(spot as int, twap_price.atomics as int) == Some(spot_over_twap),
            forall|a: u128| estimate_out.requires((a,)),
            forall|j: nat|
                j < k ==> rejected(estimate_out, spot_over_twap, max, spot, #[trigger] halved(input_coin.amount as nat, j) as u128),
        decreases amount,
    {
        let quote = estimate_out(amount);
        let out = match quote {
            Ok(o) => o,
            Err(e) => {
                assert(stopped_with(estimate_out, spot_over_twap, max, spot, amount, e));
                assert(halved(input_coin.amount as nat, k) as u128 == amount);
                return Err(e);
            },
        };
        match assess_quote(spot_over_twap, max, spot, amount, out) {
            Err(e) => {
                assert(stopped_with(estimate_out, spot_over_twap, max, spot, amount, e));
                assert(halved(input_coin.amount as nat, k) as u128 == amount);
                return Err(e);
            },
            Ok(true) => {
                assert(halved(input_coin.amount as nat, k) == amount as nat);
                proof {
                    lemma_halved_le(input_coin.amount as nat, k);
                }
                return Ok(
                    PriceImpactTradeResponse {
                        amount_in: Coin { denom: input_coin.denom, amount },
                        amount_out: Coin { denom: to_coin_denom, amount: out },
                    },
                );
            },
            Ok(false) => {
                proof {
                    assert(rejected(estimate_out, spot_over_twap, max, spot, amount));
                    assert(halved(input_coin.amount as nat, k + 1) == amount as nat / 2);
                    lemma_halved_le(input_coin.amount as nat, k);
                }
                amount = amount / 2;
                proof {
                    k = k + 1;
                }
            },
        }
    }
    assert(stopped_with(estimate_out, spot_over_twap, max, spot, amount, ContractError::NumericError));
    assert(halved(input_coin.amount as nat, k) as u128 == amount);
    Err(ContractError::NumericError)
}

/// Estimates the largest trade of `input_coin` into `to_coin_denom` whose
/// price impact stays within `max_price_impact`, tightened by how far the
/// pool's spot price (given as text) already sits above `twap_price`.
pub fn estimate_price_impact_twap_min_input_output<F: Fn(u128) -> Result<u128, ContractError>>(
    input_coin: Coin,
    to_coin_denom: String,
    spot_price: &str,
    max_price_impact: Decimal,
    twap_price: Decimal,
    estimate_out: F,
) -> (r: Result<PriceImpactTradeResponse, ContractError>)
    requires
        forall|a: u128| estimate_out.requires((a,)),
    ensures
        match decimal_atomics_of(spot_price@) {
            None => r == Err::<PriceImpactTradeResponse, ContractError>(ContractError::InvalidSpotPrice),
            Some(spot) => search_outcome(
                estimate_out,
                input_coin,
                to_coin_denom,
                spot,
                max_price_impact.atomics,
                twap_price.atomics,
                r,
            ),
        },
{
    match parse_decimal(spot_price) {
        None => Err(ContractError::InvalidSpotPrice),
        Some(spot) => estimate_with_spot_price(
            input_coin,
            to_coin_denom,
            Decimal { atomics: spot },
            max_price_impact,
            twap_price,
            estimate_out,
        ),
    }
}

/// Sizing by halving: an input halved `k` times is the starting input
/// divided by `2^k`, a power-of-two fraction of it.
pub proof fn lemma_halved_is_power_of_two_fraction(a: nat, k: nat)
    ensures
        halved(a, k) == a / pow2(k),
    decreases k,
{
    if k == 0 {
        assert(pow2(0) == 1) by {
            vstd::arithmetic::power2::lemma2_to64();
        }
    } else {
        lemma_halved_is_power_of_two_fraction(a, (k - 1) as nat);
        lemma_pow2_unfold(k);
        vstd::arithmetic::power2::lemma_pow2_pos((k - 1) as nat);
        lemma_div_denominator(a as int, pow2((k - 1) as nat) as int, 2);
        assert(pow2((k - 1) as nat) * 2 == pow2(k)) by (nonlinear_arith)
            requires
                pow2(k) == 2 * pow2((k - 1) as nat),
        ;
    }
}

} // verus!
