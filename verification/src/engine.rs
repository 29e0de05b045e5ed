use vstd::prelude::*;

use crate::address::Address;
use crate::amm::{simulate_trade_profit, trade_error_spec, trade_output_spec};
use crate::errors::ArbError;

verus! {

/// The two venues the reference deployment arbitrages between; the venue
/// whose pool prices the trade better is the direction of the counter-trade.
#[allow(non_camel_case_types)]
#[derive(Clone, Copy, Debug, PartialEq, Eq, Structural)]
pub enum TradeDirections {
    UNISWAP,
    SUSHISWAP,
}

/// A pool's reserves oriented so that `reserve_in` corresponds to the
/// trade's input token. Constructed only with both sides live.
#[derive(Clone, Copy, Debug, PartialEq, Eq, Structural)]
pub struct VenueQuote {
    pub reserve_in: u128,
    pub reserve_out: u128,
}

/// A discrepancy worth acting on: created only when the net profit clears
/// the floor, never as a zero-value placeholder.
#[derive(Clone, Copy, Debug, PartialEq, Eq, Structural)]
pub struct ArbitrageOpportunity {
    pub preferred_venue: TradeDirections,
    pub gross_profit: u128,
    pub gas_cost: u128,
    pub net_profit: u128,
}

/// How the decision engine is tuned: each venue's fee, the profit floor,
/// and whether estimated gas is netted out of the discrepancy.
#[derive(Clone, Copy, Debug, PartialEq, Eq, Structural)]
pub struct EngineConfig {
    pub fee_rate_uniswap: u128,
    pub fee_rate_sushiswap: u128,
    pub profit_floor: u128,
    pub net_gas: bool,
}

/// Parts per thousand kept by the uniswap-style venue (a 0.3% fee).
pub const UNISWAP_FEE_RATE: u128 = 997;

/// Parts per thousand kept by the sushiswap-style venue (a 0.25% fee).
pub const SUSHISWAP_FEE_RATE: u128 = 998;

/// The fixed profitability floor in the smallest token unit: a discrepancy
/// must strictly exceed this to be acted on.
pub const PROFIT_THRESHOLD_WEI: u128 = 1000000000000000;

/// Reserves as the trade sees them, given whether the input token is the
/// canonically first (lower-addressed) token of the pair.
pub open spec fn oriented_reserves(token_in_first: bool, reserve0: u128, reserve1: u128) -> (
    u128,
    u128,
) {
    if token_in_first {
        (reserve0, reserve1)
    } else {
        (reserve1, reserve0)
    }
}

/// Orients a pool's raw reserve pair to the trade's direction — the pool
/// reports reserves in canonical token order, not query order — and
/// rejects an illiquid pool.
pub fn quote_from_reserves(
    token_in: &Address,
    token_out: &Address,
    reserve0: u128,
    reserve1: u128,
) -> (r: Result<VenueQuote, ArbError>)
    ensures
        ({
            let o = oriented_reserves(token_in.value() < token_out.value(), reserve0, reserve1);
            if o.0 == 0 || o.1 == 0 {
                r == Err::<VenueQuote, ArbError>(ArbError::InsufficientLiquidity)
            } else {
                r == Ok::<VenueQuote, ArbError>(VenueQuote { reserve_in: o.0, reserve_out: o.1 })
            }
        }),
{
    let (reserve_in, reserve_out) = if token_in.lt(token_out) {
        (reserve0, reserve1)
    } else {
        (reserve1, reserve0)
    };
    if reserve_in == 0 || reserve_out == 0 {
        Err(ArbError::InsufficientLiquidity)
    } else {
        Ok(VenueQuote { reserve_in, reserve_out })
    }
}

/// The absolute discrepancy between the two venues' outputs.
pub open spec fn gross_profit_spec(output_a: int, output_b: int) -> int {
    if output_a >= output_b {
        output_a - output_b
    } else {
        output_b - output_a
    }
}

/// The venue paying out more: the cheap venue to buy on.
pub open spec fn preferred_venue_spec(output_uniswap: int, output_sushiswap: int) -> TradeDirections {
    if output_sushiswap > output_uniswap {
        TradeDirections::SUSHISWAP
    } else {
        TradeDirections::UNISWAP
    }
}

/// Decides on two computed venue outputs: equal outputs are no
/// opportunity, and one is reported only when the discrepancy, net of the
/// gas charged under the engine's policy, strictly clears the floor.
pub fn decide_from_outputs(
    output_uniswap: u128,
    output_sushiswap: u128,
    gas_cost: u128,
    profit_floor: u128,
    net_gas: bool,
) -> (r: Option<ArbitrageOpportunity>)
    ensures
        ({
            let gross = gross_profit_spec(output_uniswap as int, output_sushiswap as int);
            let charged = if net_gas {
                gas_cost as int
            } else {
                0int
            };
            if output_uniswap != output_sushiswap && gross - charged > profit_floor {
                r matches Some(o) && o.preferred_venue == preferred_venue_spec(
                    output_uniswap as int,
                    output_sushiswap as int,
                ) && o.gross_profit == gross && o.gas_cost == charged && o.net_profit == gross
                    - charged
            } else {
                r is None
            }
        }),
{
    let (preferred_venue, gross_profit) = if output_sushiswap > output_uniswap {
        (TradeDirections::SUSHISWAP, output_sushiswap - output_uniswap)
    } else if output_uniswap > output_sushiswap {
        (TradeDirections::UNISWAP, output_uniswap - output_sushiswap)
    } else {
        return None;
    };
    let charged: u128 = if net_gas {
        gas_cost
    } else {
        0
    };
    if gross_profit <= charged {
        return None;
    }
    let net_profit = gross_profit - charged;
    if net_profit > profit_floor {
        Some(
            ArbitrageOpportunity {
                preferred_venue,
                gross_profit,
                gas_cost: charged,
                net_profit,
            },
        )
    } else {
        None
    }
}

/// Prices the same trade on both venues and decides whether the
/// discrepancy, net of gas under the engine's policy, is worth acting on.
/// A venue that cannot be priced aborts the evaluation with its error — no
/// partial opportunity is reported.
pub fn evaluate_opportunity(
    uniswap: &VenueQuote,
    sushiswap: &VenueQuote,
    amount_in: u128,
    gas_cost: u128,
    config: &EngineConfig,
) -> (r: Result<Option<ArbitrageOpportunity>, ArbError>)
    ensures
        ({
            let eu = trade_error_spec(
                uniswap.reserve_in as int,
                uniswap.reserve_out as int,
                amount_in as int,
                config.fee_rate_uniswap as int,
            );
            let es = trade_error_spec(
                sushiswap.reserve_in as int,
                sushiswap.reserve_out as int,
                amount_in as int,
                config.fee_rate_sushiswap as int,
            );
            let u = trade_output_spec(
                uniswap.reserve_in as int,
                uniswap.reserve_out as int,
                amount_in as int,
                config.fee_rate_uniswap as int,
            );
            let s = trade_output_spec(
                sushiswap.reserve_in as int,
                sushiswap.reserve_out as int,
                amount_in as int,
                config.fee_rate_sushiswap as int,
            );
            let gross = gross_profit_spec(u, s);
            let charged = if config.net_gas {
                gas_cost as int
            } else {
                0int
            };
            &&& (eu matches Some(e) ==> r == Err::<Option<ArbitrageOpportunity>, ArbError>(e))
            &&& (eu is None ==> (es matches Some(e) ==> r == Err::<
                Option<ArbitrageOpportunity>,
                ArbError,
            >(e)))
            &&& ((eu is None && es is None) ==> (if u != s && gross - charged
                > config.profit_floor {
                r matches Ok(o) && o matches Some(opp) && opp.preferred_venue
                    == preferred_venue_spec(u, s) && opp.gross_profit == gross && opp.gas_cost
                    == charged && opp.net_profit == gross - charged
            } else {
                r == Ok::<Option<ArbitrageOpportunity>, ArbError>(None)
            }))
        }),
{
    let output_uniswap = match simulate_trade_profit(
        uniswap.reserve_in,
        uniswap.reserve_out,
        amount_in,
        config.fee_rate_uniswap,
    ) {
        Ok(v) => v,
        Err(e) => {
            return Err(e);
        },
    };
    let output_sushiswap = match simulate_trade_profit(
        sushiswap.reserve_in,
        sushiswap.reserve_out,
        amount_in,
        config.fee_rate_sushiswap,
    ) {
        Ok(v) => v,
        Err(e) => {
            return Err(e);
        },
    };
    Ok(
        decide_from_outputs(
            output_uniswap,
            output_sushiswap,
            gas_cost,
            config.profit_floor,
            config.net_gas,
        ),
    )
}

/// Prices the trade on both venues at their reference fee rates and
/// reports, without netting gas, whether to buy on the sushiswap-style
/// venue (`true`) or the uniswap-style one (`false`), together with the
/// gross discrepancy — only when that discrepancy strictly exceeds the
/// fixed profit threshold.
pub fn check_price_discrepancy(uniswap: &VenueQuote, sushiswap: &VenueQuote, amount_in: u128) -> (r:
    Result<Option<(bool, u128)>, ArbError>)
    ensures
        ({
            let eu = trade_error_spec(
                uniswap.reserve_in as int,
                uniswap.reserve_out as int,
                amount_in as int,
                UNISWAP_FEE_RATE as int,
            );
            let es = trade_error_spec(
                sushiswap.reserve_in as int,
                sushiswap.reserve_out as int,
                amount_in as int,
                SUSHISWAP_FEE_RATE as int,
            );
            let u = trade_output_spec(
                uniswap.reserve_in as int,
                uniswap.reserve_out as int,
                amount_in as int,
                UNISWAP_FEE_RATE as int,
            );
            let s = trade_output_spec(
                sushiswap.reserve_in as int,
                sushiswap.reserve_out as int,
                amount_in as int,
                SUSHISWAP_FEE_RATE as int,
            );
            let gross = gross_profit_spec(u, s);
            &&& (eu matches Some(e) ==> r == Err::<Option<(bool, u128)>, ArbError>(e))
            &&& (eu is None ==> (es matches Some(e) ==> r == Err::<Option<(bool, u128)>, ArbError>(
                e,
            )))
            &&& ((eu is None && es is None) ==> (if u != s && gross > PROFIT_THRESHOLD_WEI {
                r == Ok::<Option<(bool, u128)>, ArbError>(Some(((s > u), gross as u128)))
            } else {
                r == Ok::<Option<(bool, u128)>, ArbError>(None)
            }))
        }),
{
    let output_uniswap = match simulate_trade_profit(
        uniswap.reserve_in,
        uniswap.reserve_out,
        amount_in,
        UNISWAP_FEE_RATE,
    ) {
        Ok(v) => v,
        Err(e) => {
            return Err(e);
        },
    };
    let output_sushiswap = match simulate_trade_profit(
        sushiswap.reserve_in,
        sushiswap.reserve_out,
        amount_in,
        SUSHISWAP_FEE_RATE,
    ) {
        Ok(v) => v,
        Err(e) => {
            return Err(e);
        },
    };
    let (buy_on_sushiswap, profit) = if output_sushiswap > output_uniswap {
        (true, output_sushiswap - output_uniswap)
    } else if output_uniswap > output_sushiswap {
        (false, output_uniswap - output_sushiswap)
    } else {
        return Ok(None);
    };
    if profit > PROFIT_THRESHOLD_WEI {
        Ok(Some((buy_on_sushiswap, profit)))
    } else {
        Ok(None)
    }
}

} // verus!
