use arbitrage::address::Address;
use arbitrage::engine::{
    check_price_discrepancy, decide_from_outputs, evaluate_opportunity, quote_from_reserves,
    EngineConfig, TradeDirections, VenueQuote,
};
use arbitrage::errors::ArbError;

const WEI: u128 = 1_000_000_000_000_000_000;

#[test]
fn quote_orients_reserves_by_canonical_order() {
    let low = Address::new(1, 0);
    let high = Address::new(2, 0);
    // input token is canonically first: reserves keep their order
    let q = quote_from_reserves(&low, &high, 10, 20).unwrap();
    assert_eq!(q, VenueQuote { reserve_in: 10, reserve_out: 20 });
    // input token is canonically second: reserves swap
    let q = quote_from_reserves(&high, &low, 10, 20).unwrap();
    assert_eq!(q, VenueQuote { reserve_in: 20, reserve_out: 10 });
}

#[test]
fn zero_reserve_is_insufficient_liquidity() {
    let low = Address::new(1, 0);
    let high = Address::new(2, 0);
    assert_eq!(
        quote_from_reserves(&low, &high, 0, 20),
        Err(ArbError::InsufficientLiquidity)
    );
    assert_eq!(
        quote_from_reserves(&low, &high, 10, 0),
        Err(ArbError::InsufficientLiquidity)
    );
}

#[test]
fn zero_reserve_quote_aborts_evaluation() {
    // a quote built by hand with a dead side: evaluation reports the
    // arithmetic precondition, it never divides by zero
    let dead = VenueQuote { reserve_in: 0, reserve_out: 10 };
    let live = VenueQuote { reserve_in: 10, reserve_out: 10 };
    let config = EngineConfig {
        fee_rate_uniswap: 997,
        fee_rate_sushiswap: 998,
        profit_floor: 0,
        net_gas: true,
    };
    assert_eq!(
        evaluate_opportunity(&dead, &live, 5, 0, &config),
        Err(ArbError::ZeroReserves)
    );
}

#[test]
fn decision_nets_gas_and_applies_floor() {
    // outputs 100 and 105 with gas 3: net profit 2
    // floor 5: absent
    assert!(decide_from_outputs(100, 105, 3, 5, true).is_none());
    // floor 1: present, preferred venue the one yielding 105
    let opp = decide_from_outputs(100, 105, 3, 1, true).unwrap();
    assert_eq!(opp.preferred_venue, TradeDirections::SUSHISWAP);
    assert_eq!(opp.gross_profit, 5);
    assert_eq!(opp.gas_cost, 3);
    assert_eq!(opp.net_profit, 2);
}

#[test]
fn decision_prefers_uniswap_when_it_pays_more() {
    let opp = decide_from_outputs(105, 100, 3, 1, true).unwrap();
    assert_eq!(opp.preferred_venue, TradeDirections::UNISWAP);
    assert_eq!(opp.net_profit, 2);
}

#[test]
fn equal_outputs_are_no_opportunity() {
    // absent, not a zero-profit opportunity
    assert!(decide_from_outputs(100, 100, 0, 0, true).is_none());
    assert!(decide_from_outputs(100, 100, 0, 0, false).is_none());
}

#[test]
fn gas_exceeding_gross_is_no_opportunity() {
    assert!(decide_from_outputs(100, 105, 7, 0, true).is_none());
    assert!(decide_from_outputs(100, 105, 5, 0, true).is_none());
}

#[test]
fn gas_netting_can_be_switched_off() {
    // same outputs and gas, but the profit-only policy ignores the gas
    let opp = decide_from_outputs(100, 105, 7, 0, false).unwrap();
    assert_eq!(opp.gross_profit, 5);
    assert_eq!(opp.gas_cost, 0);
    assert_eq!(opp.net_profit, 5);
}

#[test]
fn discrepancy_above_threshold_is_reported() {
    let uniswap = VenueQuote { reserve_in: WEI, reserve_out: WEI };
    let sushiswap = VenueQuote { reserve_in: WEI, reserve_out: 2 * WEI };
    let amount_in: u128 = 10_000_000_000_000_000;
    // outputs: 9871580343970612 on uniswap, 19762767579556030 on sushiswap
    let r = check_price_discrepancy(&uniswap, &sushiswap, amount_in).unwrap();
    assert_eq!(r, Some((true, 9_891_187_235_585_418)));
}

#[test]
fn discrepancy_below_threshold_is_absent() {
    let uniswap = VenueQuote { reserve_in: WEI, reserve_out: WEI };
    let sushiswap = VenueQuote { reserve_in: WEI, reserve_out: WEI };
    let amount_in: u128 = 1_000_000_000_000;
    // outputs differ only by the fee gap: 999998005, far below the floor
    let r = check_price_discrepancy(&uniswap, &sushiswap, amount_in).unwrap();
    assert_eq!(r, None);
}

#[test]
fn discrepancy_propagates_venue_errors() {
    let live = VenueQuote { reserve_in: WEI, reserve_out: WEI };
    let dead = VenueQuote { reserve_in: 0, reserve_out: 0 };
    assert_eq!(
        check_price_discrepancy(&dead, &live, 100),
        Err(ArbError::ZeroReserves)
    );
    assert_eq!(
        check_price_discrepancy(&live, &dead, 100),
        Err(ArbError::ZeroReserves)
    );
    assert_eq!(
        check_price_discrepancy(&live, &live, 0),
        Err(ArbError::ZeroInput)
    );
}

#[test]
fn evaluation_reports_full_opportunity() {
    let uniswap = VenueQuote { reserve_in: WEI, reserve_out: WEI };
    let sushiswap = VenueQuote { reserve_in: WEI, reserve_out: 2 * WEI };
    let amount_in: u128 = 10_000_000_000_000_000;
    let config = EngineConfig {
        fee_rate_uniswap: 997,
        fee_rate_sushiswap: 998,
        profit_floor: 1_000_000_000_000_000,
        net_gas: true,
    };
    let gas: u128 = 1_000_000_000;
    let opp = evaluate_opportunity(&uniswap, &sushiswap, amount_in, gas, &config)
        .unwrap()
        .unwrap();
    assert_eq!(opp.preferred_venue, TradeDirections::SUSHISWAP);
    assert_eq!(opp.gross_profit, 9_891_187_235_585_418);
    assert_eq!(opp.gas_cost, 1_000_000_000);
    assert_eq!(opp.net_profit, 9_891_186_235_585_418);
}
