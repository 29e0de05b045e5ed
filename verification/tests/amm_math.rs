use arbitrage::amm::simulate_trade_profit;
use arbitrage::errors::ArbError;

#[test]
fn trade_output_exact_no_fee() {
    // f = 100 * 1000 / 1000 = 100; out = 100 * 1000 / (1000 + 100) = 90
    assert_eq!(simulate_trade_profit(1000, 1000, 100, 1000), Ok(90));
}

#[test]
fn trade_output_exact_uniswap_fee() {
    // f = 1000 * 997 / 1000 = 997; out = 997 * 10000 / 10997 = 906
    assert_eq!(simulate_trade_profit(10000, 10000, 1000, 997), Ok(906));
}

#[test]
fn trade_output_exact_no_fee_larger() {
    // f = 1000; out = 1000 * 10000 / 11000 = 909
    assert_eq!(simulate_trade_profit(10000, 10000, 1000, 1000), Ok(909));
}

#[test]
fn trade_output_zero_reserves() {
    assert_eq!(simulate_trade_profit(0, 1000, 100, 997), Err(ArbError::ZeroReserves));
    assert_eq!(simulate_trade_profit(1000, 0, 100, 997), Err(ArbError::ZeroReserves));
    assert_eq!(simulate_trade_profit(0, 0, 100, 997), Err(ArbError::ZeroReserves));
}

#[test]
fn trade_output_zero_input() {
    assert_eq!(simulate_trade_profit(1000, 1000, 0, 997), Err(ArbError::ZeroInput));
}

#[test]
fn trade_output_invalid_fee_rate() {
    assert_eq!(simulate_trade_profit(1000, 1000, 100, 0), Err(ArbError::InvalidFeeRate));
    assert_eq!(simulate_trade_profit(1000, 1000, 100, 1001), Err(ArbError::InvalidFeeRate));
}

#[test]
fn trade_output_overflow_is_arithmetic_error() {
    // amount_in * fee_rate overflows the word
    assert_eq!(simulate_trade_profit(1000, 1000, u128::MAX, 2), Err(ArbError::ArithmeticError));
    // fee-adjusted amount times reserve_out overflows
    assert_eq!(
        simulate_trade_profit(1000, u128::MAX, 1 << 100, 1000),
        Err(ArbError::ArithmeticError)
    );
}

#[test]
fn trade_output_monotone_in_amount() {
    let small = simulate_trade_profit(1_000_000, 1_000_000, 1_000, 997).unwrap();
    let large = simulate_trade_profit(1_000_000, 1_000_000, 2_000, 997).unwrap();
    assert!(small <= large);
    assert!(small < large);
}

#[test]
fn trade_output_below_ideal_spot() {
    // ideal spot exchange is amount_in * reserve_out / reserve_in = 1000
    let out = simulate_trade_profit(1_000_000, 1_000_000, 1_000, 997).unwrap();
    assert!(out < 1_000);
    // the cross-multiplied strict form of the same bound
    assert!(out * 1_000_000 < 1_000 * 1_000_000);
}

#[test]
fn constant_product_identity_no_fee() {
    let reserve_in: u128 = 1000;
    let reserve_out: u128 = 1000;
    let amount_in: u128 = 100;
    let out = simulate_trade_profit(reserve_in, reserve_out, amount_in, 1000).unwrap();
    assert_eq!(out, 90);
    let product = reserve_in * reserve_out;
    let after = (reserve_in + amount_in) * (reserve_out - out);
    assert!(product <= after);
    assert!(after < product + (reserve_in + amount_in));
}
