use arbitrage::address::Address;
use arbitrage::decode::{decode_transaction, is_target_pair, pair_matches, DecodedSwap};
use arbitrage::errors::ArbError;

fn push_word_u128(out: &mut Vec<u8>, v: u128) {
    out.extend_from_slice(&[0u8; 16]);
    out.extend_from_slice(&v.to_be_bytes());
}

fn push_word_address(out: &mut Vec<u8>, hi: u32, lo: u128) {
    out.extend_from_slice(&[0u8; 12]);
    out.extend_from_slice(&hi.to_be_bytes());
    out.extend_from_slice(&lo.to_be_bytes());
}

/// Call data for a two-hop swap of `amount_in` from `token_in` to
/// `token_out`, laid out as the router's swap call encodes it.
fn swap_calldata(
    selector: &[u8; 4],
    amount_in: u128,
    path: &[(u32, u128)],
) -> Vec<u8> {
    let mut data = Vec::new();
    data.extend_from_slice(selector);
    push_word_u128(&mut data, amount_in); // amountIn
    push_word_u128(&mut data, 0); // amountOutMin
    push_word_u128(&mut data, 160); // offset of path
    push_word_address(&mut data, 0xabcd, 0x1234); // to
    push_word_u128(&mut data, 1_700_000_000); // deadline
    push_word_u128(&mut data, path.len() as u128);
    for (hi, lo) in path {
        push_word_address(&mut data, *hi, *lo);
    }
    data
}

const SELECTOR: [u8; 4] = [0x38, 0xed, 0x17, 0x39];

#[test]
fn decode_extracts_amount_and_first_two_hops() {
    let data = swap_calldata(&SELECTOR, 123_456, &[(7, 100), (9, 200), (11, 300)]);
    let selector = SELECTOR.to_vec();
    let decoded = decode_transaction(&data, &selector).unwrap();
    assert_eq!(decoded.amount_in, 123_456);
    assert_eq!(decoded.token_in, Address::new(7, 100));
    assert_eq!(decoded.token_out, Address::new(9, 200));
}

#[test]
fn decode_wrong_selector_fails() {
    let data = swap_calldata(&[0x11, 0x22, 0x33, 0x44], 123_456, &[(7, 100), (9, 200)]);
    let selector = SELECTOR.to_vec();
    assert_eq!(decode_transaction(&data, &selector), Err(ArbError::DecodeError));
}

#[test]
fn decode_single_hop_path_fails() {
    let data = swap_calldata(&SELECTOR, 123_456, &[(7, 100)]);
    let selector = SELECTOR.to_vec();
    assert_eq!(decode_transaction(&data, &selector), Err(ArbError::DecodeError));
}

#[test]
fn decode_truncated_data_fails() {
    let mut data = swap_calldata(&SELECTOR, 123_456, &[(7, 100), (9, 200)]);
    data.truncate(100);
    let selector = SELECTOR.to_vec();
    assert_eq!(decode_transaction(&data, &selector), Err(ArbError::DecodeError));
}

#[test]
fn decode_empty_data_fails() {
    let selector = SELECTOR.to_vec();
    assert_eq!(decode_transaction(&Vec::new(), &selector), Err(ArbError::DecodeError));
}

#[test]
fn decode_path_pointing_past_end_fails() {
    let mut data = swap_calldata(&SELECTOR, 123_456, &[(7, 100), (9, 200)]);
    // overwrite the path-offset word to point far past the data
    let off_word_start = 4 + 64;
    for b in data.iter_mut().skip(off_word_start).take(32) {
        *b = 0;
    }
    data[off_word_start + 31] = 255;
    let selector = SELECTOR.to_vec();
    assert_eq!(decode_transaction(&data, &selector), Err(ArbError::DecodeError));
}

#[test]
fn decode_oversized_amount_fails() {
    let mut data = swap_calldata(&SELECTOR, 123_456, &[(7, 100), (9, 200)]);
    // set a high byte of the amount word
    data[5] = 1;
    let selector = SELECTOR.to_vec();
    assert_eq!(decode_transaction(&data, &selector), Err(ArbError::DecodeError));
}

#[test]
fn pair_filter_matches_both_directions() {
    let a = Address::new(1, 10);
    let b = Address::new(2, 20);
    let forward = DecodedSwap { token_in: a, token_out: b, amount_in: 5 };
    let reverse = DecodedSwap { token_in: b, token_out: a, amount_in: 5 };
    assert!(pair_matches(&forward, &a, &b));
    assert!(pair_matches(&reverse, &a, &b));
}

#[test]
fn pair_filter_rejects_other_pairs() {
    let a = Address::new(1, 10);
    let b = Address::new(2, 20);
    let c = Address::new(3, 30);
    let other = DecodedSwap { token_in: a, token_out: c, amount_in: 5 };
    let same = DecodedSwap { token_in: a, token_out: a, amount_in: 5 };
    assert!(!pair_matches(&other, &a, &b));
    assert!(!pair_matches(&same, &a, &b));
}

#[test]
fn screening_accepts_target_pair_swap() {
    let a = Address::new(1, 10);
    let b = Address::new(2, 20);
    // the swap runs the pair in reverse: still a hit
    let data = swap_calldata(&SELECTOR, 777, &[(2, 20), (1, 10)]);
    let selector = SELECTOR.to_vec();
    assert!(is_target_pair(&data, &selector, &a, &b));
    let hit = decode_transaction(&data, &selector).unwrap();
    assert_eq!(hit.amount_in, 777);
    assert_eq!(hit.token_in, b);
    assert_eq!(hit.token_out, a);
}

#[test]
fn screening_skips_other_pairs_and_garbage() {
    let a = Address::new(1, 10);
    let b = Address::new(2, 20);
    let data = swap_calldata(&SELECTOR, 777, &[(5, 50), (6, 60)]);
    let selector = SELECTOR.to_vec();
    assert!(!is_target_pair(&data, &selector, &a, &b));
    let garbage = vec![0u8; 10];
    assert!(!is_target_pair(&garbage, &selector, &a, &b));
}
