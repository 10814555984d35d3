//! Big-endian encoding of unsigned integers, as used by the frame header.

use vstd::prelude::*;

verus! {

/// `256` raised to the power `n`.
pub open spec fn pow256(n: nat) -> nat
    decreases n,
{
    if n == 0 {
        1
    } else {
        256 * pow256((n - 1) as nat)
    }
}

/// The value of a byte string read as a big-endian unsigned integer.
pub open spec fn be_value(s: Seq<u8>) -> nat
    decreases s.len(),
{
    if s.len() == 0 {
        0
    } else {
        be_value(s.drop_last()) * 256 + s.last() as nat
    }
}

/// The `n` low-order bytes of `v`, most significant first.
pub open spec fn be_bytes(v: nat, n: nat) -> Seq<u8>
    decreases n,
{
    if n == 0 {
        Seq::empty()
    } else {
        be_bytes(v / 256, (n - 1) as nat).push((v % 256) as u8)
    }
}

pub proof fn lemma_pow256_16()
    ensures
        pow256(16) == u128::MAX + 1,
{
    reveal_with_fuel(pow256, 17);
}

pub proof fn lemma_be_bytes_len(v: nat, n: nat)
    ensures
        be_bytes(v, n).len() == n,
    decreases n,
{
    if n > 0 {
        lemma_be_bytes_len(v / 256, (n - 1) as nat);
    }
}

/// A big-endian byte string of length `k` holds a value below `256^k`.
pub proof fn lemma_be_value_bound(s: Seq<u8>)
    ensures
        be_value(s) < pow256(s.len()),
    decreases s.len(),
{
    if s.len() > 0 {
        lemma_be_value_bound(s.drop_last());
    }
}

/// Reading back the `n` big-endian bytes of a value below `256^n` gives the value.
pub proof fn lemma_be_round_trip(v: nat, n: nat)
    requires
        v < pow256(n),
    ensures
        be_value(be_bytes(v, n)) == v,
    decreases n,
{
    if n > 0 {
        lemma_be_round_trip(v / 256, (n - 1) as nat);
        assert(be_bytes(v, n).drop_last() == be_bytes(v / 256, (n - 1) as nat));
    }
}

/// Writing back the value of a byte string, in as many bytes, gives the string.
pub proof fn lemma_be_bytes_of_value(s: Seq<u8>)
    ensures
        be_bytes(be_value(s), s.len()) == s,
    decreases s.len(),
{
    if s.len() > 0 {
        let t = s.drop_last();
        lemma_be_bytes_of_value(t);
        assert((be_value(t) * 256 + s.last() as nat) / 256 == be_value(t));
        assert(((be_value(t) * 256 + s.last() as nat) % 256) as u8 == s.last());
        assert(s == t.push(s.last()));
    }
}

/// Appends the sixteen big-endian bytes of `v` to `out`.
pub fn push_u128_be(out: &mut Vec<u8>, v: u128)
    ensures
        final(out)@ == old(out)@ + be_bytes(v as nat, 16),
{
    let mut digits: Vec<u8> = Vec::new();
    let mut k: usize = 0;
    while k < 16
        invariant
            k <= 16,
            digits@.len() == k,
        decreases 16 - k,
    {
        digits.push(0u8);
        k = k + 1;
    }
    let mut x: u128 = v;
    let mut i: usize = 16;
    while i > 0
        invariant
            i <= 16,
            digits@.len() == 16,
            be_bytes(v as nat, 16) == be_bytes(x as nat, i as nat) + digits@.subrange(
                i as int,
                16,
            ),
        decreases i,
    {
        let ghost before = digits@.subrange(i as int, 16);
        digits[i - 1] = (x % 256) as u8;
        proof {
            assert(digits@.subrange(i - 1, 16) == seq![(x % 256) as u8] + before);
            assert(be_bytes(x as nat, i as nat) == be_bytes((x / 256) as nat, (i - 1) as nat).push(
                (x % 256) as u8,
            ));
            assert(be_bytes(x as nat, i as nat) + before == be_bytes((x / 256) as nat, (i - 1) as nat)
                + digits@.subrange(i - 1, 16));
        }
        x = x / 256;
        i = i - 1;
    }
    assert(digits@.subrange(0, 16) == digits@);
    assert(be_bytes(x as nat, 0) + digits@ == digits@);
    let mut j: usize = 0;
    let ghost start = out@;
    while j < 16
        invariant
            j <= 16,
            digits@.len() == 16,
            out@ == start + digits@.subrange(0, j as int),
        decreases 16 - j,
    {
        out.push(digits[j]);
        assert(digits@.subrange(0, j + 1) == digits@.subrange(0, j as int).push(digits@[j as int]));
        j = j + 1;
    }
    assert(digits@.subrange(0, 16) == digits@);
}

/// Reads the sixteen bytes of `bytes` from `start` as a big-endian integer.
pub fn read_u128_be(bytes: &Vec<u8>, start: usize) -> (r: u128)
    requires
        start + 16 <= bytes@.len(),
    ensures
        r as nat == be_value(bytes@.subrange(start as int, start + 16)),
{
    let mut v: u128 = 0;
    let mut i: usize = start;
    let len: usize = bytes.len();
    let end: usize = start + 16;
    while i < end
        invariant
            end == start + 16,
            end <= len,
            len == bytes@.len(),
            start <= i <= end,
            start + 16 <= bytes@.len(),
            v as nat == be_value(bytes@.subrange(start as int, i as int)),
        decreases end - i,
    {
        proof {
            lemma_be_value_bound(bytes@.subrange(start as int, i as int));
            lemma_pow256_monotone((i - start) as nat, 15);
            lemma_pow256_16();
            assert(bytes@.subrange(start as int, i + 1).drop_last() == bytes@.subrange(
                start as int,
                i as int,
            ));
        }
        v = v * 256 + bytes[i] as u128;
        i = i + 1;
    }
    v
}

pub proof fn lemma_pow256_monotone(a: nat, b: nat)
    requires
        a <= b,
    ensures
        pow256(a) <= pow256(b),
    decreases b,
{
    if a < b {
        lemma_pow256_monotone(a, (b - 1) as nat);
    }
}

} // verus!
