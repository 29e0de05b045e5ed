use vstd::prelude::*;

use crate::errors::ArbError;

verus! {

/// A 160-bit account or contract address, held as its big-endian numeric
/// value split across two machine words: `hi` carries the top 4 bytes of
/// the 20-byte form and `lo` the remaining 16.
#[derive(Clone, Copy, Debug, PartialEq, Eq, Structural)]
pub struct Address {
    pub hi: u32,
    pub lo: u128,
}

impl Address {
    /// The address as the 160-bit number its bytes spell in big-endian
    /// order; the model every contract about addresses speaks of.
    pub open spec fn value(self) -> int {
        self.hi * 0x1_0000_0000_0000_0000_0000_0000_0000_0000 + self.lo
    }

    pub fn new(hi: u32, lo: u128) -> (r: Address)
        ensures
            r.hi == hi,
            r.lo == lo,
    {
        Address { hi, lo }
    }

    /// Whether this is the zero address, the value a venue's pair registry
    /// answers for a pair it does not know.
    pub fn is_zero(&self) -> (r: bool)
        ensures
            r == (self.value() == 0),
    {
        self.hi == 0 && self.lo == 0
    }

    /// Numeric order of addresses, which is also the byte-lexicographic
    /// order of their 20-byte forms.
    pub fn lt(&self, other: &Address) -> (r: bool)
        ensures
            r == (self.value() < other.value()),
    {
        self.hi < other.hi || (self.hi == other.hi && self.lo < other.lo)
    }
}

/// Two addresses are the same value exactly when they are the same pair of
/// machine words.
pub proof fn lemma_address_value_injective(a: Address, b: Address)
    ensures
        (a.value() == b.value()) <==> (a == b),
{
}

/// Orders a token pair ascending by address, the canonical form under
/// which a venue's pair registry files its pools.
pub fn canonical_pair(a: &Address, b: &Address) -> (r: (Address, Address))
    ensures
        r.0.value() <= r.1.value(),
        (r.0 == *a && r.1 == *b) || (r.0 == *b && r.1 == *a),
{
    if a.lt(b) {
        (*a, *b)
    } else {
        (*b, *a)
    }
}

/// Rejects the zero address a pair registry answers for an unknown pair:
/// such a venue has no pool for the pair.
pub fn validate_pool_address(pool: &Address) -> (r: Result<Address, ArbError>)
    ensures
        (pool.value() == 0) ==> r == Err::<Address, ArbError>(ArbError::PoolNotFound),
        (pool.value() != 0) ==> r == Ok::<Address, ArbError>(*pool),
{
    if pool.is_zero() {
        Err(ArbError::PoolNotFound)
    } else {
        Ok(*pool)
    }
}

} // verus!
