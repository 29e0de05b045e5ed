use vstd::prelude::*;
use vstd::arithmetic::mul::lemma_mul_inequality;

use crate::address::Address;
use crate::errors::ArbError;
use crate::words::{
    be_nat, lemma_be_nat_bound, lemma_be_nat_split, lemma_be_nat_zero_iff, lemma_pow256_values,
    pow256, range_is_zero, read_be_u128,
};

verus! {

/// A swap observed in the mempool, reduced to what the arbitrage pipeline
/// reads: the first two hops of the path and the input amount.
#[derive(Clone, Copy, Debug, PartialEq, Eq, Structural)]
pub struct DecodedSwap {
    pub token_in: Address,
    pub token_out: Address,
    pub amount_in: u128,
}

/// The value of the 32-byte word at byte offset `i` of the call data.
pub open spec fn word_val(data: Seq<u8>, i: int) -> nat {
    be_nat(data.subrange(i, i + 32))
}

/// The byte offset of the path array, relative to the start of the
/// arguments (byte 4): the third head word of the call.
pub open spec fn path_offset(data: Seq<u8>) -> int {
    word_val(data, 68) as int
}

/// The number of hops in the swap path.
pub open spec fn path_len(data: Seq<u8>) -> int {
    word_val(data, 4 + path_offset(data)) as int
}

/// Call data that parses as the expected swap call: the right selector,
/// five head words, and a path of at least two hops lying inside the data.
pub open spec fn swap_calldata_well_formed(data: Seq<u8>, selector: Seq<u8>) -> bool {
    &&& data.len() >= 164
    &&& data.subrange(0, 4) == selector
    &&& path_offset(data) + 36 <= data.len()
    &&& path_len(data) >= 2
    &&& 4 + path_offset(data) + 32 + 32 * path_len(data) <= data.len()
}

/// Whether the declared input amount fits the machine word this crate
/// carries amounts in.
pub open spec fn swap_amount_fits(data: Seq<u8>) -> bool {
    word_val(data, 4) < pow256(16)
}

/// The input amount of a well-formed swap call: its first argument word.
pub open spec fn decoded_amount(data: Seq<u8>) -> nat {
    word_val(data, 4)
}

/// The first hop of the path: the address in the low 20 bytes of the
/// path's first element.
pub open spec fn decoded_token_in(data: Seq<u8>) -> nat {
    be_nat(data.subrange(4 + path_offset(data) + 44, 4 + path_offset(data) + 64))
}

/// The second hop of the path.
pub open spec fn decoded_token_out(data: Seq<u8>) -> nat {
    be_nat(data.subrange(4 + path_offset(data) + 76, 4 + path_offset(data) + 96))
}

/// A word whose high 16 bytes are zero is its low 16 bytes; one with any
/// set high byte is at least `pow256(16)`.
proof fn lemma_word_high16(data: Seq<u8>, i: int)
    requires
        0 <= i,
        i + 32 <= data.len(),
    ensures
        (forall|k: int| i <= k < i + 16 ==> data[k] == 0) ==> word_val(data, i) == be_nat(
            data.subrange(i + 16, i + 32),
        ),
        !(forall|k: int| i <= k < i + 16 ==> data[k] == 0) ==> word_val(data, i) >= pow256(16),
        be_nat(data.subrange(i + 16, i + 32)) < pow256(16),
{
    let w = data.subrange(i, i + 32);
    let hi = data.subrange(i, i + 16);
    let lo = data.subrange(i + 16, i + 32);
    lemma_be_nat_split(w, 16);
    assert(w.subrange(0, 16) =~= hi);
    assert(w.subrange(16, 32) =~= lo);
    lemma_be_nat_bound(lo);
    lemma_be_nat_zero_iff(hi);
    if forall|k: int| i <= k < i + 16 ==> data[k] == 0 {
        assert forall|k: int| 0 <= k < hi.len() implies hi[k] == 0 by {
            assert(hi[k] == data[i + k]);
        }
        assert(be_nat(hi) == 0);
        assert(0 * pow256(16) == 0) by (nonlinear_arith);
        assert(word_val(data, i) == be_nat(lo));
    } else {
        if be_nat(hi) == 0 {
            assert forall|k: int| i <= k < i + 16 implies data[k] == 0 by {
                assert(hi[k - i] == data[k]);
            }
        }
        assert(be_nat(hi) >= 1);
        lemma_mul_inequality(1, be_nat(hi) as int, pow256(16) as int);
    }
}

/// Whether the call data opens with the expected 4-byte selector.
fn selector_matches(data: &Vec<u8>, selector: &Vec<u8>) -> (r: bool)
    requires
        data@.len() >= 4,
        selector@.len() == 4,
    ensures
        r == (data@.subrange(0, 4) == selector@),
{
    let r0 = data[0] == selector[0] && data[1] == selector[1] && data[2] == selector[2] && data[3]
        == selector[3];
    proof {
        if r0 {
            assert(data@.subrange(0, 4) =~= selector@);
        } else {
            if data@.subrange(0, 4) == selector@ {
                assert(data@.subrange(0, 4)[0] == data@[0]);
                assert(data@.subrange(0, 4)[1] == data@[1]);
                assert(data@.subrange(0, 4)[2] == data@[2]);
                assert(data@.subrange(0, 4)[3] == data@[3]);
            }
        }
    }
    r0
}

/// Reads the address held in the low 20 bytes of the word starting at
/// `word_start`, as the registry and path encodings carry addresses.
pub fn address_from_word(data: &Vec<u8>, word_start: usize) -> (r: Address)
    requires
        word_start + 32 <= data@.len(),
    ensures
        r.value() == be_nat(data@.subrange(word_start as int + 12, word_start as int + 32)),
{
    let n: usize = data.len();
    let hi128 = read_be_u128(data, word_start + 12, 4);
    let lo = read_be_u128(data, word_start + 16, 16);
    proof {
        let ws = word_start as int;
        let s20 = data@.subrange(ws + 12, ws + 32);
        lemma_be_nat_bound(data@.subrange(ws + 12, ws + 16));
        lemma_pow256_values();
        lemma_be_nat_split(s20, 4);
        assert(s20.subrange(0, 4) =~= data@.subrange(ws + 12, ws + 16));
        assert(s20.subrange(4, 20) =~= data@.subrange(ws + 16, ws + 32));
    }
    Address { hi: hi128 as u32, lo }
}

/// Parses observed call data against the swap call's selector, extracting
/// the input amount and the first two hops of the path.
///
/// Succeeds exactly on well-formed call data whose amount fits the machine
/// word; every malformed input — wrong selector, truncated data, a path of
/// fewer than two hops — is `DecodeError`, never a panic and never partial
/// data.
pub fn decode_transaction(input: &Vec<u8>, selector: &Vec<u8>) -> (r: Result<
    DecodedSwap,
    ArbError,
>)
    requires
        selector@.len() == 4,
    ensures
        r is Ok <==> (swap_calldata_well_formed(input@, selector@) && swap_amount_fits(input@)),
        r is Err ==> r->Err_0 == ArbError::DecodeError,
        r is Ok ==> r->Ok_0.amount_in == decoded_amount(input@),
        r is Ok ==> r->Ok_0.token_in.value() == decoded_token_in(input@),
        r is Ok ==> r->Ok_0.token_out.value() == decoded_token_out(input@),
{
    let n: usize = input.len();
    if n < 164 {
        return Err(ArbError::DecodeError);
    }
    if !selector_matches(input, selector) {
        return Err(ArbError::DecodeError);
    }
    // The amount word: its high bytes must be clear for the amount to fit.
    let amount_hi_zero = range_is_zero(input, 4, 16);
    proof {
        lemma_word_high16(input@, 4);
        lemma_pow256_values();
    }
    if !amount_hi_zero {
        return Err(ArbError::DecodeError);
    }
    let amount_in = read_be_u128(input, 20, 16);
    // The path offset word: a high byte set would place the path past the
    // end of any addressable input.
    let off_hi_zero = range_is_zero(input, 68, 16);
    proof {
        lemma_word_high16(input@, 68);
    }
    if !off_hi_zero {
        return Err(ArbError::DecodeError);
    }
    let off128 = read_be_u128(input, 84, 16);
    if off128 > (n as u128) - 36 {
        return Err(ArbError::DecodeError);
    }
    let off: usize = off128 as usize;
    // The path length word.
    let plen_hi_zero = range_is_zero(input, 4 + off, 16);
    proof {
        lemma_word_high16(input@, 4 + off as int);
    }
    if !plen_hi_zero {
        return Err(ArbError::DecodeError);
    }
    let plen = read_be_u128(input, 4 + off + 16, 16);
    if plen < 2 {
        return Err(ArbError::DecodeError);
    }
    if plen > n as u128 {
        return Err(ArbError::DecodeError);
    }
    if 4 + (off as u128) + 32 + 32 * plen > n as u128 {
        return Err(ArbError::DecodeError);
    }
    let token_in = address_from_word(input, 4 + off + 32);
    let token_out = address_from_word(input, 4 + off + 64);
    Ok(DecodedSwap { token_in, token_out, amount_in })
}

/// Whether a decoded swap touches the operator's configured pair in either
/// direction: `(in, out)` as configured or reversed, and nothing else.
pub fn pair_matches(swap: &DecodedSwap, target_in: &Address, target_out: &Address) -> (r: bool)
    ensures
        r == ((swap.token_in == *target_in && swap.token_out == *target_out) || (swap.token_in
            == *target_out && swap.token_out == *target_in)),
{
    (swap.token_in == *target_in && swap.token_out == *target_out) || (swap.token_in == *target_out
        && swap.token_out == *target_in)
}

/// Screens raw observed call data against the configured pair: decodes it
/// and matches the pair in either direction. Decode failure is not an
/// error here — the observed transaction is simply not of interest.
pub fn is_target_pair(
    input: &Vec<u8>,
    selector: &Vec<u8>,
    target_in: &Address,
    target_out: &Address,
) -> (r: bool)
    requires
        selector@.len() == 4,
    ensures
        r <==> (swap_calldata_well_formed(input@, selector@) && swap_amount_fits(input@) && ((
        decoded_token_in(input@) == target_in.value() && decoded_token_out(input@)
            == target_out.value()) || (decoded_token_in(input@) == target_out.value()
            && decoded_token_out(input@) == target_in.value()))),
{
    match decode_transaction(input, selector) {
        Ok(swap) => {
            proof {
                crate::address::lemma_address_value_injective(swap.token_in, *target_in);
                crate::address::lemma_address_value_injective(swap.token_in, *target_out);
                crate::address::lemma_address_value_injective(swap.token_out, *target_in);
                crate::address::lemma_address_value_injective(swap.token_out, *target_out);
            }
            pair_matches(&swap, target_in, target_out)
        },
        Err(_) => false,
    }
}

} // verus!
