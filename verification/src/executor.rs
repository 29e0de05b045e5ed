use vstd::prelude::*;

use crate::address::Address;
use crate::decode::word_val;
use crate::errors::ArbError;
use crate::words::{
    be_nat, lemma_be_nat_split, lemma_be_nat_zero_iff, lemma_pow256_values, pow256, write_be_bytes,
};

verus! {

/// Seconds the counter-trade stays valid on chain after it is built.
pub const DEADLINE_WINDOW_SECS: u64 = 300;

/// Relies on chrono's `Utc::now` for the current instant and
/// `DateTime::timestamp` to project it to whole seconds since the Unix
/// epoch. The result follows the wall clock, so nothing is promised of it
/// beyond its sign: `Utc::now` only returns once the clock is at or past
/// the epoch, and the projection of such an instant is non-negative.
#[verifier::external_body]
fn current_unix_time() -> (t: i64)
    ensures
        t >= 0,
{
    chrono::Utc::now().timestamp()
}

/// The deadline a trade built at second `now` carries: the fixed window
/// past `now`. A clock before the epoch has no meaningful deadline.
pub fn deadline_from(now: i64) -> (r: Option<u64>)
    ensures
        (r is Some) <==> now >= 0,
        r is Some ==> r->0 == now + DEADLINE_WINDOW_SECS,
{
    if now < 0 {
        None
    } else {
        Some(now as u64 + DEADLINE_WINDOW_SECS)
    }
}

/// The deadline for a trade built now: the wall clock plus the fixed
/// window, so at least the window itself.
pub fn current_deadline() -> (r: u64)
    ensures
        r >= DEADLINE_WINDOW_SECS,
{
    let now = current_unix_time();
    match deadline_from(now) {
        Some(d) => d,
        None => {
            proof {
                assert(false);
            }
            DEADLINE_WINDOW_SECS
        },
    }
}

/// Which gas-pricing model the counter-trade uses: a flat gas price
/// queried from the chain, or fee-market pricing derived from the current
/// base fee.
#[derive(Clone, Copy, Debug, PartialEq, Eq, Structural)]
pub enum GasPricing {
    Legacy { gas_price: u128 },
    FeeMarket { base_fee: u128 },
}

/// The fee fields a populated transaction carries under each model.
#[derive(Clone, Copy, Debug, PartialEq, Eq, Structural)]
pub enum FeeFields {
    Legacy { gas_price: u128 },
    FeeMarket { max_fee_per_gas: u128, max_priority_fee_per_gas: u128 },
}

/// Derives the transaction's fee fields. Legacy pricing passes the
/// queried gas price through; fee-market pricing tips one tenth of the
/// base fee and caps at base fee plus tip, failing with `ArithmeticError`
/// only where that sum would overflow.
pub fn compute_fee_fields(pricing: &GasPricing) -> (r: Result<FeeFields, ArbError>)
    ensures
        (*pricing) matches GasPricing::Legacy { gas_price } ==> r == Ok::<FeeFields, ArbError>(
            FeeFields::Legacy { gas_price },
        ),
        (*pricing) matches GasPricing::FeeMarket { base_fee } ==> ({
            let priority = base_fee as int / 10;
            if base_fee + priority <= u128::MAX {
                r == Ok::<FeeFields, ArbError>(
                    FeeFields::FeeMarket {
                        max_fee_per_gas: (base_fee + priority) as u128,
                        max_priority_fee_per_gas: priority as u128,
                    },
                )
            } else {
                r == Err::<FeeFields, ArbError>(ArbError::ArithmeticError)
            }
        }),
{
    match pricing {
        GasPricing::Legacy { gas_price } => Ok(FeeFields::Legacy { gas_price: *gas_price }),
        GasPricing::FeeMarket { base_fee } => {
            let max_priority_fee_per_gas: u128 = *base_fee / 10;
            match base_fee.checked_add(max_priority_fee_per_gas) {
                Some(max_fee_per_gas) => Ok(
                    FeeFields::FeeMarket { max_fee_per_gas, max_priority_fee_per_gas },
                ),
                None => Err(ArbError::ArithmeticError),
            }
        },
    }
}

/// Narrows the chain id the node reports to the width the transaction
/// encoding carries, rejecting a value that does not fit.
pub fn chain_id_to_u64(chain_id: u128) -> (r: Result<u64, ArbError>)
    ensures
        (chain_id <= u64::MAX) ==> r == Ok::<u64, ArbError>(chain_id as u64),
        (chain_id > u64::MAX) ==> r == Err::<u64, ArbError>(ArbError::ArithmeticError),
{
    if chain_id > u64::MAX as u128 {
        Err(ArbError::ArithmeticError)
    } else {
        Ok(chain_id as u64)
    }
}

/// A 32-byte word whose first 12 bytes are zero reads as the 4-plus-16
/// byte address value behind them.
proof fn lemma_address_word(s: Seq<u8>, hi: nat, lo: nat)
    requires
        s.len() == 32,
        forall|i: int| 0 <= i < 12 ==> s[i] == 0,
        be_nat(s.subrange(12, 16)) == hi,
        be_nat(s.subrange(16, 32)) == lo,
    ensures
        be_nat(s) == hi * pow256(16) + lo,
{
    lemma_be_nat_split(s, 16);
    let h = s.subrange(0, 16);
    lemma_be_nat_split(h, 12);
    assert(h.subrange(0, 12) =~= s.subrange(0, 12));
    assert(h.subrange(12, 16) =~= s.subrange(12, 16));
    lemma_be_nat_zero_iff(s.subrange(0, 12));
    assert forall|i: int| 0 <= i < s.subrange(0, 12).len() implies s.subrange(0, 12)[i] == 0 by {
        assert(s.subrange(0, 12)[i] == s[i]);
    }
    assert(be_nat(s.subrange(0, 12)) == 0);
    assert(0 * pow256(4) == 0) by (nonlinear_arith);
    assert(be_nat(h) == hi);
}

/// A 32-byte word whose first 16 bytes are zero reads as its low half.
proof fn lemma_padded_word(s: Seq<u8>, v: nat)
    requires
        s.len() == 32,
        forall|i: int| 0 <= i < 16 ==> s[i] == 0,
        be_nat(s.subrange(16, 32)) == v,
    ensures
        be_nat(s) == v,
{
    lemma_be_nat_split(s, 16);
    lemma_be_nat_zero_iff(s.subrange(0, 16));
    assert forall|i: int| 0 <= i < s.subrange(0, 16).len() implies s.subrange(0, 16)[i] == 0 by {
        assert(s.subrange(0, 16)[i] == s[i]);
    }
    assert(be_nat(s.subrange(0, 16)) == 0);
    assert(0 * pow256(16) == 0) by (nonlinear_arith);
}

/// A 32-byte word that is zero but for its last byte reads as that byte.
proof fn lemma_tail_byte_word(s: Seq<u8>, b: u8)
    requires
        s.len() == 32,
        forall|i: int| 0 <= i < 31 ==> s[i] == 0,
        s[31] == b,
    ensures
        be_nat(s) == b,
{
    assert(s.drop_last() =~= s.subrange(0, 31));
    lemma_be_nat_zero_iff(s.subrange(0, 31));
    assert forall|i: int| 0 <= i < s.subrange(0, 31).len() implies s.subrange(0, 31)[i] == 0 by {
        assert(s.subrange(0, 31)[i] == s[i]);
    }
    assert(be_nat(s.subrange(0, 31)) == 0);
    assert(be_nat(s) == be_nat(s.drop_last()) * 256 + b);
}

/// Encodes the call to the arbitrage contract's entry point: the 4-byte
/// selector, then the input token, the input amount, the output token,
/// the deadline, and the venue flag, each as one 32-byte big-endian word.
pub fn encode_start_arbitrage(
    selector: &Vec<u8>,
    token_in: &Address,
    amount_in: u128,
    token_out: &Address,
    deadline: u64,
    use_uniswap: bool,
) -> (r: Vec<u8>)
    requires
        selector@.len() == 4,
    ensures
        r@.len() == 164,
        r@.subrange(0, 4) == selector@,
        word_val(r@, 4) == token_in.value(),
        word_val(r@, 36) == amount_in,
        word_val(r@, 68) == token_out.value(),
        word_val(r@, 100) == deadline,
        word_val(r@, 132) == (if use_uniswap {
            1int
        } else {
            0int
        }),
{
    let mut out: Vec<u8> = vec![0u8; 164];
    out[0] = selector[0];
    out[1] = selector[1];
    out[2] = selector[2];
    out[3] = selector[3];
    proof {
        lemma_pow256_values();
    }
    write_be_bytes(&mut out, 20, 4, token_in.hi as u128);
    let ghost s1 = out@;
    write_be_bytes(&mut out, 36, 16, token_in.lo);
    let ghost s2 = out@;
    write_be_bytes(&mut out, 68, 16, amount_in);
    let ghost s3 = out@;
    write_be_bytes(&mut out, 84, 4, token_out.hi as u128);
    let ghost s4 = out@;
    write_be_bytes(&mut out, 100, 16, token_out.lo);
    let ghost s5 = out@;
    write_be_bytes(&mut out, 132, 16, deadline as u128);
    let ghost s6 = out@;
    let flag: u8 = if use_uniswap {
        1
    } else {
        0
    };
    out[163] = flag;
    proof {
        let f = out@;
        // the selector
        assert(f.subrange(0, 4) =~= selector@);
        // the input token's word
        let w1 = f.subrange(4, 36);
        assert(w1.subrange(12, 16) =~= s1.subrange(16, 20));
        assert(w1.subrange(16, 32) =~= s2.subrange(20, 36));
        lemma_address_word(w1, token_in.hi as nat, token_in.lo as nat);
        // the amount word
        let w2 = f.subrange(36, 68);
        assert(w2.subrange(16, 32) =~= s3.subrange(52, 68));
        lemma_padded_word(w2, amount_in as nat);
        // the output token's word
        let w3 = f.subrange(68, 100);
        assert(w3.subrange(12, 16) =~= s4.subrange(80, 84));
        assert(w3.subrange(16, 32) =~= s5.subrange(84, 100));
        lemma_address_word(w3, token_out.hi as nat, token_out.lo as nat);
        // the deadline word
        let w4 = f.subrange(100, 132);
        assert(w4.subrange(16, 32) =~= s6.subrange(116, 132));
        lemma_padded_word(w4, deadline as nat);
        // the venue flag word
        let w5 = f.subrange(132, 164);
        assert(w5[31] == flag);
        lemma_tail_byte_word(w5, flag);
    }
    out
}

/// The counter-trade as handed to the signer: every field the encoding
/// carries, with the gas limit left open until estimation fills it.
#[derive(Debug)]
pub struct TxRequest {
    pub to: Address,
    pub data: Vec<u8>,
    pub value: u128,
    pub gas: Option<u128>,
    pub fees: FeeFields,
    pub chain_id: u64,
}

/// Populates the counter-trade's fields around the encoded call: sent to
/// the arbitrage contract, carrying no native value, gas not yet
/// estimated.
pub fn build_arbitrage_request(to: &Address, data: Vec<u8>, fees: FeeFields, chain_id: u64) -> (r:
    TxRequest)
    ensures
        r.to == *to,
        r.data@ == data@,
        r.value == 0,
        r.gas is None,
        r.fees == fees,
        r.chain_id == chain_id,
{
    TxRequest { to: *to, data, value: 0, gas: None, fees, chain_id }
}

/// Fills in the gas limit the node estimated, leaving the rest untouched.
pub fn with_gas_limit(req: TxRequest, gas_estimate: u128) -> (r: TxRequest)
    ensures
        r.gas == Some(gas_estimate),
        r.to == req.to,
        r.data@ == req.data@,
        r.value == req.value,
        r.fees == req.fees,
        r.chain_id == req.chain_id,
{
    TxRequest {
        to: req.to,
        data: req.data,
        value: req.value,
        gas: Some(gas_estimate),
        fees: req.fees,
        chain_id: req.chain_id,
    }
}

} // verus!
