use vstd::prelude::*;

verus! {

/// 256 to the power `n`.
pub open spec fn pow256(n: nat) -> nat
    decreases n,
{
    if n == 0 {
        1
    } else {
        256 * pow256((n - 1) as nat)
    }
}

/// The little-endian value of a byte sequence: the first byte is the least significant.
pub open spec fn le_value(bytes: Seq<u8>) -> nat
    decreases bytes.len(),
{
    if bytes.len() == 0 {
        0
    } else {
        bytes[0] as nat + 256 * le_value(bytes.drop_first())
    }
}

/// The `n` least significant bytes of `v`, least significant first.
pub open spec fn le_bytes(v: nat, n: nat) -> Seq<u8>
    decreases n,
{
    if n == 0 {
        Seq::empty()
    } else {
        seq![(v % 256) as u8] + le_bytes(v / 256, (n - 1) as nat)
    }
}

pub proof fn lemma_le_value_bound(bytes: Seq<u8>)
    ensures
        le_value(bytes) < pow256(bytes.len()),
    decreases bytes.len(),
{
    if bytes.len() > 0 {
        lemma_le_value_bound(bytes.drop_first());
        let r = le_value(bytes.drop_first());
        let p = pow256(bytes.drop_first().len());
        assert(bytes[0] as nat + 256 * r < 256 * p) by (nonlinear_arith)
            requires
                r < p,
                bytes[0] < 256,
        ;
    }
}

/// Writing `v` in `n` little-endian bytes and reading them back gives `v`, when it fits.
pub proof fn lemma_le_value_le_bytes(v: nat, n: nat)
    requires
        v < pow256(n),
    ensures
        le_bytes(v, n).len() == n,
        le_value(le_bytes(v, n)) == v,
    decreases n,
{
    if n > 0 {
        assert(v / 256 < pow256((n - 1) as nat)) by (nonlinear_arith)
            requires
                v < 256 * pow256((n - 1) as nat),
        ;
        lemma_le_value_le_bytes(v / 256, (n - 1) as nat);
        let s = le_bytes(v, n);
        assert(s.drop_first() == le_bytes(v / 256, (n - 1) as nat));
        assert(v == v % 256 + 256 * (v / 256)) by (nonlinear_arith);
    }
}

/// Reading bytes as a little-endian number and writing it back in as many bytes gives the
/// same bytes.
pub proof fn lemma_le_bytes_le_value(bytes: Seq<u8>)
    ensures
        le_bytes(le_value(bytes), bytes.len()) == bytes,
    decreases bytes.len(),
{
    if bytes.len() > 0 {
        lemma_le_bytes_le_value(bytes.drop_first());
        let v = le_value(bytes);
        let r = le_value(bytes.drop_first());
        assert(v % 256 == bytes[0] as nat && v / 256 == r) by (nonlinear_arith)
            requires
                v == bytes[0] as nat + 256 * r,
                bytes[0] < 256,
        ;
        assert(le_bytes(v, bytes.len()) =~= bytes);
    }
}

pub proof fn lemma_pow256_small()
    ensures
        pow256(7) == 0x100000000000000,
        pow256(8) == 0x10000000000000000,
{
    reveal_with_fuel(pow256, 9);
}

proof fn lemma_pow256_monotonic(a: nat, b: nat)
    requires
        a <= b,
    ensures
        pow256(a) <= pow256(b),
    decreases b,
{
    if a < b {
        lemma_pow256_monotonic(a, (b - 1) as nat);
    }
}

/// Reads eight bytes as a little-endian `u64` (`u64::from_le_bytes`).
pub fn u64_from_le(bytes: &[u8]) -> (v: u64)
    requires
        bytes.len() == 8,
    ensures
        v as nat == le_value(bytes@),
{
    let mut acc: u64 = 0;
    let mut k: usize = 8;
    proof {
        assert(bytes@.subrange(8, 8) =~= Seq::<u8>::empty());
        lemma_pow256_small();
    }
    while k > 0
        invariant
            k <= 8,
            bytes@.len() == 8,
            acc as nat == le_value(bytes@.subrange(k as int, 8)),
            pow256(7) == 0x100000000000000,
            pow256(8) == 0x10000000000000000,
        decreases k,
    {
        proof {
            lemma_le_value_bound(bytes@.subrange(k as int, 8));
            lemma_pow256_monotonic((8 - k) as nat, 7);
            assert(bytes@.subrange(k - 1, 8).drop_first() == bytes@.subrange(k as int, 8));
        }
        let b = bytes[k - 1] as u64;
        assert(acc * 256 + b < 0x10000000000000000) by (nonlinear_arith)
            requires
                acc < 0x100000000000000,
                b < 256,
        ;
        acc = acc * 256 + b;
        k = k - 1;
    }
    assert(bytes@.subrange(0, 8) == bytes@);
    acc
}

/// The eight little-endian bytes of `v` (`u64::to_le_bytes`).
pub fn u64_to_le(v: u64) -> (bytes: Vec<u8>)
    ensures
        bytes@ == le_bytes(v as nat, 8),
{
    let mut out: Vec<u8> = Vec::new();
    let mut rest: u64 = v;
    let mut k: usize = 0;
    while k < 8
        invariant
            k <= 8,
            out@ + le_bytes(rest as nat, (8 - k) as nat) == le_bytes(v as nat, 8),
        decreases 8 - k,
    {
        let ghost before = le_bytes(rest as nat, (8 - k) as nat);
        assert(before == seq![(rest % 256) as u8] + le_bytes((rest / 256) as nat, (8 - k - 1) as nat));
        out.push((rest % 256) as u8);
        rest = rest / 256;
        k = k + 1;
        assert(out@ + le_bytes(rest as nat, (8 - k) as nat) =~= le_bytes(v as nat, 8));
    }
    assert(le_bytes(rest as nat, 0) =~= Seq::<u8>::empty());
    assert(out@ + Seq::<u8>::empty() == out@);
    out
}

/// Eight bytes hold any `u64`.
pub proof fn lemma_pow256_value(n: nat)
    requires
        n == 8,
    ensures
        pow256(n) == 0x10000000000000000,
{
    lemma_pow256_small();
}

pub proof fn lemma_le_bytes_len(v: nat, n: nat)
    ensures
        le_bytes(v, n).len() == n,
    decreases n,
{
    if n > 0 {
        lemma_le_bytes_len(v / 256, (n - 1) as nat);
    }
}

} // verus!
