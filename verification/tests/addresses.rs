use arbitrage::address::{canonical_pair, validate_pool_address, Address};
use arbitrage::errors::ArbError;
use arbitrage::words::{read_be_u128, write_be_bytes};

#[test]
fn address_order_is_numeric() {
    let a = Address::new(1, u128::MAX);
    let b = Address::new(2, 0);
    assert!(a.lt(&b));
    assert!(!b.lt(&a));
    assert!(!a.lt(&a));
    let c = Address::new(1, 0);
    assert!(c.lt(&a));
}

#[test]
fn canonical_pair_orders_ascending() {
    let a = Address::new(1, 10);
    let b = Address::new(2, 20);
    assert_eq!(canonical_pair(&a, &b), (a, b));
    assert_eq!(canonical_pair(&b, &a), (a, b));
    assert_eq!(canonical_pair(&a, &a), (a, a));
}

#[test]
fn zero_pool_address_is_pool_not_found() {
    let zero = Address::new(0, 0);
    assert_eq!(validate_pool_address(&zero), Err(ArbError::PoolNotFound));
    let pool = Address::new(0, 1);
    assert_eq!(validate_pool_address(&pool), Ok(pool));
    assert!(zero.is_zero());
    assert!(!pool.is_zero());
}

#[test]
fn be_bytes_round_trip() {
    let mut buf = vec![0u8; 32];
    write_be_bytes(&mut buf, 32, 16, 0x0102030405060708090a0b0c0d0e0f10);
    assert_eq!(&buf[16..32], &0x0102030405060708090a0b0c0d0e0f10u128.to_be_bytes());
    assert_eq!(read_be_u128(&buf, 16, 16), 0x0102030405060708090a0b0c0d0e0f10);
    // a shorter field keeps its neighbours intact
    write_be_bytes(&mut buf, 8, 4, 0xcafe);
    assert_eq!(read_be_u128(&buf, 4, 4), 0xcafe);
    assert_eq!(read_be_u128(&buf, 16, 16), 0x0102030405060708090a0b0c0d0e0f10);
    assert_eq!(read_be_u128(&buf, 0, 4), 0);
}
