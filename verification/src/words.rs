use vstd::prelude::*;
use vstd::arithmetic::div_mod::{lemma_fundamental_div_mod, lemma_multiply_divide_lt};

verus! {

/// The value of a byte string read as a big-endian natural number, the
/// convention of the contract call encoding this crate speaks.
pub open spec fn be_nat(s: Seq<u8>) -> nat
    decreases s.len(),
{
    if s.len() == 0 {
        0nat
    } else {
        be_nat(s.drop_last()) * 256 + s.last() as nat
    }
}

/// 256 raised to `n`: the weight of a byte `n` places from the end of a
/// big-endian byte string.
pub open spec fn pow256(n: nat) -> nat
    decreases n,
{
    if n == 0 {
        1nat
    } else {
        256 * pow256((n - 1) as nat)
    }
}

pub proof fn lemma_pow256_pos(n: nat)
    ensures
        pow256(n) >= 1,
    decreases n,
{
    if n > 0 {
        lemma_pow256_pos((n - 1) as nat);
    }
}

pub proof fn lemma_pow256_increases(m: nat, n: nat)
    requires
        m <= n,
    ensures
        pow256(m) <= pow256(n),
    decreases n,
{
    if m < n {
        lemma_pow256_increases(m, (n - 1) as nat);
        lemma_pow256_pos((n - 1) as nat);
    }
}

/// The concrete weights used by 4-byte and 16-byte fields.
pub proof fn lemma_pow256_values()
    ensures
        pow256(4) == 0x1_0000_0000,
        pow256(16) == 0x1_0000_0000_0000_0000_0000_0000_0000_0000,
{
    assert(pow256(0) == 1);
    assert(pow256(1) == 256);
    assert(pow256(2) == 0x1_0000);
    assert(pow256(3) == 0x100_0000);
    assert(pow256(4) == 0x1_0000_0000);
    assert(pow256(5) == 0x100_0000_0000);
    assert(pow256(6) == 0x1_0000_0000_0000);
    assert(pow256(7) == 0x100_0000_0000_0000);
    assert(pow256(8) == 0x1_0000_0000_0000_0000);
    assert(pow256(9) == 0x100_0000_0000_0000_0000);
    assert(pow256(10) == 0x1_0000_0000_0000_0000_0000);
    assert(pow256(11) == 0x100_0000_0000_0000_0000_0000);
    assert(pow256(12) == 0x1_0000_0000_0000_0000_0000_0000);
    assert(pow256(13) == 0x100_0000_0000_0000_0000_0000_0000);
    assert(pow256(14) == 0x1_0000_0000_0000_0000_0000_0000_0000);
    assert(pow256(15) == 0x100_0000_0000_0000_0000_0000_0000_0000);
    assert(pow256(16) == 0x1_0000_0000_0000_0000_0000_0000_0000_0000);
}

/// A big-endian byte string's value is bounded by the weight of its length.
pub proof fn lemma_be_nat_bound(s: Seq<u8>)
    ensures
        be_nat(s) < pow256(s.len()),
    decreases s.len(),
{
    if s.len() == 0 {
    } else {
        lemma_be_nat_bound(s.drop_last());
        assert(pow256(s.len()) == 256 * pow256((s.len() - 1) as nat));
    }
}

/// Concatenation shifts the left part up by the weight of the right part.
pub proof fn lemma_be_nat_append(s: Seq<u8>, t: Seq<u8>)
    ensures
        be_nat(s + t) == be_nat(s) * pow256(t.len()) + be_nat(t),
    decreases t.len(),
{
    if t.len() == 0 {
        assert(s + t =~= s);
        assert(pow256(0) == 1);
        assert(be_nat(s) * 1 == be_nat(s));
    } else {
        lemma_be_nat_append(s, t.drop_last());
        assert((s + t).drop_last() =~= s + t.drop_last());
        assert((s + t).last() == t.last());
        assert(pow256(t.len()) == 256 * pow256((t.len() - 1) as nat));
        assert(be_nat(s + t) == be_nat(s + t.drop_last()) * 256 + t.last() as nat);
        assert(be_nat(t) == be_nat(t.drop_last()) * 256 + t.last() as nat);
        let a = be_nat(s);
        let p = pow256((t.len() - 1) as nat);
        let b = be_nat(t.drop_last());
        let c = t.last() as nat;
        assert(be_nat(s + t) == (a * p + b) * 256 + c);
        assert(be_nat(s + t) == a * pow256(t.len()) + be_nat(t)) by (nonlinear_arith)
            requires
                be_nat(s + t) == (a * p + b) * 256 + c,
                be_nat(t) == b * 256 + c,
                pow256(t.len()) == 256 * p,
        ;
    }
}

/// Splitting a byte string at `k` splits its value by place weight.
pub proof fn lemma_be_nat_split(s: Seq<u8>, k: int)
    requires
        0 <= k <= s.len(),
    ensures
        be_nat(s) == be_nat(s.subrange(0, k)) * pow256((s.len() - k) as nat) + be_nat(
            s.subrange(k, s.len() as int),
        ),
{
    assert(s =~= s.subrange(0, k) + s.subrange(k, s.len() as int));
    lemma_be_nat_append(s.subrange(0, k), s.subrange(k, s.len() as int));
}

/// A big-endian value is zero exactly when every byte is zero.
pub proof fn lemma_be_nat_zero_iff(s: Seq<u8>)
    ensures
        (be_nat(s) == 0) <==> (forall|i: int| 0 <= i < s.len() ==> s[i] == 0),
    decreases s.len(),
{
    if s.len() == 0 {
    } else {
        lemma_be_nat_zero_iff(s.drop_last());
        if be_nat(s) == 0 {
            assert(s.last() == 0);
            assert(be_nat(s.drop_last()) == 0);
            assert forall|i: int| 0 <= i < s.len() implies s[i] == 0 by {
                if i < s.len() - 1 {
                    assert(s.drop_last()[i] == s[i]);
                } else {
                    assert(s[i] == s.last());
                }
            }
        } else {
            if forall|i: int| 0 <= i < s.len() ==> s[i] == 0 {
                assert forall|i: int| 0 <= i < s.drop_last().len() implies s.drop_last()[i]
                    == 0 by {
                    assert(s.drop_last()[i] == s[i]);
                }
                assert(be_nat(s.drop_last()) == 0);
                assert(s.last() == s[s.len() - 1]);
                assert(be_nat(s) == 0);
            }
        }
    }
}

/// Reads `len` bytes starting at `start` as one big-endian number; at most
/// 16 bytes, so the value fits the return word.
pub fn read_be_u128(data: &Vec<u8>, start: usize, len: usize) -> (r: u128)
    requires
        start + len <= data@.len(),
        len <= 16,
    ensures
        r == be_nat(data@.subrange(start as int, (start + len) as int)),
{
    let n: usize = data.len();
    let mut acc: u128 = 0;
    let mut j: usize = 0;
    proof {
        assert(data@.subrange(start as int, start as int) =~= Seq::<u8>::empty());
    }
    while j < len
        invariant
            j <= len,
            len <= 16,
            n == data@.len(),
            start + len <= n,
            acc == be_nat(data@.subrange(start as int, (start + j) as int)),
            acc < pow256(j as nat),
        decreases len - j,
    {
        let b: u8 = data[start + j];
        proof {
            let sub0 = data@.subrange(start as int, (start + j) as int);
            let sub1 = data@.subrange(start as int, (start + j + 1) as int);
            assert(sub1.drop_last() =~= sub0);
            assert(sub1.last() == b);
            assert(pow256((j + 1) as nat) == 256 * pow256(j as nat));
            lemma_pow256_increases((j + 1) as nat, 16nat);
            lemma_pow256_values();
        }
        acc = acc * 256 + (b as u128);
        j = j + 1;
    }
    acc
}

/// Whether every byte in `[start, start + len)` is zero.
pub fn range_is_zero(data: &Vec<u8>, start: usize, len: usize) -> (r: bool)
    requires
        start + len <= data@.len(),
    ensures
        r == (forall|i: int| start <= i < start + len ==> data@[i] == 0),
{
    let n: usize = data.len();
    let mut j: usize = 0;
    while j < len
        invariant
            j <= len,
            n == data@.len(),
            start + len <= n,
            forall|i: int| start <= i < start + j ==> data@[i] == 0,
        decreases len - j,
    {
        if data[start + j] != 0 {
            return false;
        }
        j = j + 1;
    }
    true
}

/// Writes `v` as `len` big-endian bytes ending just before `end`, leaving
/// every byte outside that window unchanged.
pub fn write_be_bytes(out: &mut Vec<u8>, end: usize, len: usize, v: u128)
    requires
        len <= end <= old(out)@.len(),
        v < pow256(len as nat),
    ensures
        final(out)@.len() == old(out)@.len(),
        be_nat(final(out)@.subrange((end - len) as int, end as int)) == v,
        forall|i: int|
            0 <= i < old(out)@.len() && !(end - len <= i < end) ==> final(out)@[i] == old(out)@[i],
    decreases len,
{
    if len == 0 {
        proof {
            assert(out@.subrange(end as int, end as int) =~= Seq::<u8>::empty());
        }
    } else {
        let b: u8 = (v % 256) as u8;
        out[end - 1] = b;
        proof {
            assert(pow256(len as nat) == 256 * pow256((len - 1) as nat));
            lemma_multiply_divide_lt(v as int, 256, pow256((len - 1) as nat) as int);
        }
        write_be_bytes(out, end - 1, len - 1, v / 256);
        proof {
            let s = out@.subrange((end - len) as int, end as int);
            assert(s.drop_last() =~= out@.subrange((end - len) as int, (end - 1) as int));
            assert(out@[end - 1] == b);
            assert(s.last() == b);
            lemma_fundamental_div_mod(v as int, 256);
        }
    }
}

} // verus!
