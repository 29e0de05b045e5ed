use vstd::prelude::*;
use vstd::arithmetic::div_mod::{
    lemma_div_is_ordered, lemma_div_is_ordered_by_denominator, lemma_div_multiples_vanish,
    lemma_div_pos_is_pos, lemma_fundamental_div_mod, lemma_mod_division_less_than_divisor,
    lemma_multiply_divide_lt,
};
use vstd::arithmetic::mul::{
    lemma_mul_inequality, lemma_mul_nonnegative, lemma_mul_strict_inequality,
    lemma_mul_strictly_positive,
};

use crate::errors::ArbError;

verus! {

/// The part of the input amount kept by the venue's pool after the trading
/// fee, with `fee_rate` the parts per thousand that survive the fee
/// (997 means a 0.3% fee).
pub open spec fn fee_adjusted_spec(amount_in: int, fee_rate: int) -> int {
    amount_in * fee_rate / 1000
}

/// The amount a constant-product pool pays out for `amount_in`, after the
/// fee: the product of the reserves is held invariant over the fee-adjusted
/// input, rounding down.
pub open spec fn trade_output_spec(
    reserve_in: int,
    reserve_out: int,
    amount_in: int,
    fee_rate: int,
) -> int {
    let f = fee_adjusted_spec(amount_in, fee_rate);
    f * reserve_out / (reserve_in + f)
}

/// The preconditions of a trade simulation: live reserves, a real input,
/// and a fee numerator in 1..=1000.
pub open spec fn valid_trade_inputs(
    reserve_in: int,
    reserve_out: int,
    amount_in: int,
    fee_rate: int,
) -> bool {
    reserve_in > 0 && reserve_out > 0 && amount_in > 0 && 0 < fee_rate <= 1000
}

/// Whether every checked arithmetic step of the trade simulation stays
/// within the machine word.
pub open spec fn trade_fits(
    reserve_in: int,
    reserve_out: int,
    amount_in: int,
    fee_rate: int,
) -> bool {
    let f = fee_adjusted_spec(amount_in, fee_rate);
    &&& amount_in * fee_rate <= u128::MAX
    &&& f * reserve_out <= u128::MAX
    &&& reserve_in + f <= u128::MAX
}

/// The error a trade simulation reports, or `None` where it succeeds: the
/// preconditions are tried in order, then the checked arithmetic.
pub open spec fn trade_error_spec(
    reserve_in: int,
    reserve_out: int,
    amount_in: int,
    fee_rate: int,
) -> Option<ArbError> {
    if reserve_in == 0 || reserve_out == 0 {
        Some(ArbError::ZeroReserves)
    } else if amount_in == 0 {
        Some(ArbError::ZeroInput)
    } else if fee_rate == 0 || fee_rate > 1000 {
        Some(ArbError::InvalidFeeRate)
    } else if !trade_fits(reserve_in, reserve_out, amount_in, fee_rate) {
        Some(ArbError::ArithmeticError)
    } else {
        None
    }
}

/// Simulates the output of a constant-product venue for a trade of
/// `amount_in` against reserves `(reserve_in, reserve_out)`, keeping
/// `fee_rate` parts per thousand of the input.
///
/// Each rejected precondition is a distinct error; an overflowing checked
/// step is `ArithmeticError`; no input can make it panic or divide by zero.
pub fn simulate_trade_profit(
    reserve_in: u128,
    reserve_out: u128,
    amount_in: u128,
    fee_rate: u128,
) -> (r: Result<u128, ArbError>)
    ensures
        (r == Err::<u128, ArbError>(ArbError::ZeroReserves)) <==> (reserve_in == 0 || reserve_out
            == 0),
        (r == Err::<u128, ArbError>(ArbError::ZeroInput)) <==> (reserve_in > 0 && reserve_out > 0
            && amount_in == 0),
        (r == Err::<u128, ArbError>(ArbError::InvalidFeeRate)) <==> (reserve_in > 0 && reserve_out
            > 0 && amount_in > 0 && (fee_rate == 0 || fee_rate > 1000)),
        (r == Err::<u128, ArbError>(ArbError::ArithmeticError)) <==> (valid_trade_inputs(
            reserve_in as int,
            reserve_out as int,
            amount_in as int,
            fee_rate as int,
        ) && !trade_fits(reserve_in as int, reserve_out as int, amount_in as int, fee_rate as int)),
        r is Ok <==> (valid_trade_inputs(
            reserve_in as int,
            reserve_out as int,
            amount_in as int,
            fee_rate as int,
        ) && trade_fits(reserve_in as int, reserve_out as int, amount_in as int, fee_rate as int)),
        r is Ok ==> r->Ok_0 == trade_output_spec(
            reserve_in as int,
            reserve_out as int,
            amount_in as int,
            fee_rate as int,
        ),
        r is Err ==> Some(r->Err_0) == trade_error_spec(
            reserve_in as int,
            reserve_out as int,
            amount_in as int,
            fee_rate as int,
        ),
        r is Ok <==> trade_error_spec(
            reserve_in as int,
            reserve_out as int,
            amount_in as int,
            fee_rate as int,
        ) is None,
{
    if reserve_in == 0 || reserve_out == 0 {
        return Err(ArbError::ZeroReserves);
    }
    if amount_in == 0 {
        return Err(ArbError::ZeroInput);
    }
    if fee_rate == 0 || fee_rate > 1000 {
        return Err(ArbError::InvalidFeeRate);
    }
    let scaled = match amount_in.checked_mul(fee_rate) {
        Some(v) => v,
        None => {
            return Err(ArbError::ArithmeticError);
        },
    };
    let amount_in_with_fee: u128 = scaled / 1000;
    let numerator = match amount_in_with_fee.checked_mul(reserve_out) {
        Some(v) => v,
        None => {
            return Err(ArbError::ArithmeticError);
        },
    };
    let denominator = match reserve_in.checked_add(amount_in_with_fee) {
        Some(v) => v,
        None => {
            return Err(ArbError::ArithmeticError);
        },
    };
    Ok(numerator / denominator)
}

/// An intermediate fact about rounded division: two fractions of
/// non-negative integers compare as their cross products do.
proof fn lemma_div_frac_le(a: int, b: int, c: int, d: int)
    requires
        0 <= a,
        0 < b,
        0 < d,
        a * d <= c * b,
    ensures
        a / b <= c / d,
{
    let q = a / b;
    lemma_fundamental_div_mod(a, b);
    lemma_mod_division_less_than_divisor(a, b);
    assert(q * b <= a);
    assert(q * d * b <= c * b) by (nonlinear_arith)
        requires
            q * b <= a,
            a * d <= c * b,
            0 < d,
            0 < b,
    ;
    assert(q * d <= c) by (nonlinear_arith)
        requires
            q * d * b <= c * b,
            0 < b,
    ;
    lemma_div_multiples_vanish(q, d);
    lemma_div_is_ordered(d * q, c, d);
}

/// The output of a trade never shrinks when the input grows: with the
/// reserves and the fee held fixed, a larger `amount_in` receives at least
/// as large an `amount_out` (rounding keeps the comparison non-strict).
pub proof fn lemma_trade_output_monotone(
    reserve_in: int,
    reserve_out: int,
    amount_in_1: int,
    amount_in_2: int,
    fee_rate: int,
)
    requires
        valid_trade_inputs(reserve_in, reserve_out, amount_in_1, fee_rate),
        amount_in_1 <= amount_in_2,
    ensures
        trade_output_spec(reserve_in, reserve_out, amount_in_1, fee_rate) <= trade_output_spec(
            reserve_in,
            reserve_out,
            amount_in_2,
            fee_rate,
        ),
{
    let f1 = fee_adjusted_spec(amount_in_1, fee_rate);
    let f2 = fee_adjusted_spec(amount_in_2, fee_rate);
    lemma_mul_inequality(amount_in_1, amount_in_2, fee_rate);
    lemma_div_is_ordered(amount_in_1 * fee_rate, amount_in_2 * fee_rate, 1000);
    lemma_mul_nonnegative(amount_in_1, fee_rate);
    lemma_div_pos_is_pos(amount_in_1 * fee_rate, 1000);
    lemma_mul_nonnegative(f1, reserve_out);
    assert((f1 * reserve_out) * (reserve_in + f2) <= (f2 * reserve_out) * (reserve_in + f1))
        by (nonlinear_arith)
        requires
            0 <= f1,
            f1 <= f2,
            reserve_out > 0,
            reserve_in > 0,
    ;
    lemma_div_frac_le(f1 * reserve_out, reserve_in + f1, f2 * reserve_out, reserve_in + f2);
}

/// The fee and the price impact only ever cost the trader: the simulated
/// output never exceeds the ideal spot exchange `amount_in * reserve_out /
/// reserve_in` (rounding makes the bound non-strict).
pub proof fn lemma_trade_output_below_ideal(
    reserve_in: int,
    reserve_out: int,
    amount_in: int,
    fee_rate: int,
)
    requires
        valid_trade_inputs(reserve_in, reserve_out, amount_in, fee_rate),
    ensures
        trade_output_spec(reserve_in, reserve_out, amount_in, fee_rate) <= amount_in * reserve_out
            / reserve_in,
{
    let f = fee_adjusted_spec(amount_in, fee_rate);
    lemma_mul_inequality(fee_rate, 1000, amount_in);
    assert(amount_in * fee_rate == fee_rate * amount_in);
    assert(amount_in * 1000 == 1000 * amount_in);
    lemma_div_is_ordered(amount_in * fee_rate, amount_in * 1000, 1000);
    lemma_div_multiples_vanish(amount_in, 1000);
    assert(f <= amount_in);
    lemma_mul_nonnegative(amount_in, fee_rate);
    lemma_div_pos_is_pos(amount_in * fee_rate, 1000);
    lemma_mul_nonnegative(f, reserve_out);
    lemma_mul_inequality(f, amount_in, reserve_out);
    lemma_div_is_ordered_by_denominator(f * reserve_out, reserve_in, reserve_in + f);
    lemma_div_is_ordered(f * reserve_out, amount_in * reserve_out, reserve_in);
}

/// The strict form of the bound, free of rounding: cross-multiplied, the
/// simulated output is strictly worse than the ideal spot rate, so the fee
/// and the price impact always cost the trader something.
pub proof fn lemma_trade_output_strictly_below_spot(
    reserve_in: int,
    reserve_out: int,
    amount_in: int,
    fee_rate: int,
)
    requires
        valid_trade_inputs(reserve_in, reserve_out, amount_in, fee_rate),
    ensures
        trade_output_spec(reserve_in, reserve_out, amount_in, fee_rate) * reserve_in < amount_in
            * reserve_out,
{
    let f = fee_adjusted_spec(amount_in, fee_rate);
    let out = trade_output_spec(reserve_in, reserve_out, amount_in, fee_rate);
    lemma_mul_nonnegative(amount_in, fee_rate);
    lemma_div_pos_is_pos(amount_in * fee_rate, 1000);
    assert(f >= 0);
    // f <= amount_in
    lemma_mul_inequality(fee_rate, 1000, amount_in);
    assert(amount_in * fee_rate == fee_rate * amount_in);
    assert(amount_in * 1000 == 1000 * amount_in);
    lemma_div_is_ordered(amount_in * fee_rate, amount_in * 1000, 1000);
    lemma_div_multiples_vanish(amount_in, 1000);
    assert(f <= amount_in);
    // out * (reserve_in + f) <= f * reserve_out
    lemma_mul_nonnegative(f, reserve_out);
    lemma_fundamental_div_mod(f * reserve_out, reserve_in + f);
    lemma_mod_division_less_than_divisor(f * reserve_out, reserve_in + f);
    assert((reserve_in + f) * out <= f * reserve_out);
    lemma_div_pos_is_pos(f * reserve_out, reserve_in + f);
    assert(out >= 0);
    if out == 0 {
        lemma_mul_strictly_positive(amount_in, reserve_out);
        assert(out * reserve_in == 0);
    } else {
        assert(f >= 1) by (nonlinear_arith)
            requires
                (reserve_in + f) * out <= f * reserve_out,
                out >= 1,
                reserve_in > 0,
                reserve_out > 0,
                f >= 0,
        ;
        assert(out * reserve_in < f * reserve_out) by (nonlinear_arith)
            requires
                (reserve_in + f) * out <= f * reserve_out,
                out >= 1,
                f >= 1,
                reserve_in > 0,
        ;
        lemma_mul_inequality(f, amount_in, reserve_out);
    }
}

/// With no fee (`fee_rate == 1000`) the simulation realises the exact
/// constant-product identity up to integer rounding: the product of the
/// post-trade reserves recovers `reserve_in * reserve_out`, overshooting it
/// by less than one unit of the divisor.
pub proof fn lemma_constant_product_no_fee(reserve_in: int, reserve_out: int, amount_in: int)
    requires
        reserve_in > 0,
        reserve_out > 0,
        amount_in > 0,
    ensures
        ({
            let out = trade_output_spec(reserve_in, reserve_out, amount_in, 1000);
            &&& 0 <= out < reserve_out
            &&& reserve_in * reserve_out <= (reserve_in + amount_in) * (reserve_out - out)
            &&& (reserve_in + amount_in) * (reserve_out - out) < reserve_in * reserve_out + (
            reserve_in + amount_in)
        }),
{
    lemma_div_multiples_vanish(amount_in, 1000);
    assert(amount_in * 1000 == 1000 * amount_in);
    let f = fee_adjusted_spec(amount_in, 1000);
    assert(f == amount_in);
    let out = trade_output_spec(reserve_in, reserve_out, amount_in, 1000);
    let rem = (amount_in * reserve_out) % (reserve_in + amount_in);
    lemma_fundamental_div_mod(amount_in * reserve_out, reserve_in + amount_in);
    lemma_mod_division_less_than_divisor(amount_in * reserve_out, reserve_in + amount_in);
    lemma_mul_nonnegative(amount_in, reserve_out);
    lemma_div_pos_is_pos(amount_in * reserve_out, reserve_in + amount_in);
    lemma_mul_strict_inequality(amount_in, reserve_in + amount_in, reserve_out);
    assert(amount_in * reserve_out < (reserve_in + amount_in) * reserve_out);
    lemma_multiply_divide_lt(amount_in * reserve_out, reserve_in + amount_in, reserve_out);
    assert(out < reserve_out);
    assert((reserve_in + amount_in) * (reserve_out - out) == reserve_in * reserve_out + rem)
        by (nonlinear_arith)
        requires
            amount_in * reserve_out == (reserve_in + amount_in) * out + rem,
    ;
}

} // verus!
