use vstd::prelude::*;

verus! {

/// Ten decimal digits: the width of each of the three fields of an internal time.
pub open spec fn field_base() -> int {
    10_000_000_000
}

/// The internal time of an event: the decimal number whose 30 digits are the block
/// number, then `value_one`, then `value_two`, each written with 10 digits (zero-padded).
/// Every `u32` has at most 10 decimal digits, so the fields never overlap.
pub open spec fn internal_time(block_number: u32, value_one: u32, value_two: u32) -> int {
    block_number * (field_base() * field_base()) + value_one * field_base() + value_two
}

/// Lexicographic order on the (block, value_one, value_two) triples.
pub open spec fn triple_lt(a: (u32, u32, u32), b: (u32, u32, u32)) -> bool {
    ||| a.0 < b.0
    ||| a.0 == b.0 && a.1 < b.1
    ||| a.0 == b.0 && a.1 == b.1 && a.2 < b.2
}

/// Orders events within a block: block number first, then `value_one`, then `value_two`.
pub fn get_internal_time(block_number: u32, value_one: u32, value_two: u32) -> (t: u128)
    ensures
        t == internal_time(block_number, value_one, value_two),
{
    proof {
        lemma_internal_time_bounds(block_number, value_one, value_two);
    }
    let b = block_number as u128;
    let one = value_one as u128;
    let two = value_two as u128;
    assert(b * 100_000_000_000_000_000_000u128 <= 4294967295 * 100_000_000_000_000_000_000u128)
        by (nonlinear_arith)
        requires b <= 4294967295;
    assert(one * 10_000_000_000u128 <= 4294967295 * 10_000_000_000u128) by (nonlinear_arith)
        requires one <= 4294967295;
    b * 100_000_000_000_000_000_000u128 + one * 10_000_000_000u128 + two
}

/// An internal time is at least zero and below 10^30.
pub proof fn lemma_internal_time_bounds(block_number: u32, value_one: u32, value_two: u32)
    ensures
        0 <= internal_time(block_number, value_one, value_two),
        internal_time(block_number, value_one, value_two)
            < field_base() * field_base() * field_base(),
{
    let b = block_number as int;
    let o = value_one as int;
    let w = value_two as int;
    assert(0 <= b * 100_000_000_000_000_000_000 + o * 10_000_000_000 + w
        < 1_000_000_000_000_000_000_000_000_000_000) by (nonlinear_arith)
        requires
            0 <= b < 10_000_000_000,
            0 <= o < 10_000_000_000,
            0 <= w < 10_000_000_000,
    ;
}

/// The three fields can be read back from an internal time: the block number is the
/// quotient by 10^20, `value_one` the middle ten digits and `value_two` the last ten.
pub proof fn lemma_internal_time_fields(block_number: u32, value_one: u32, value_two: u32)
    ensures
        internal_time(block_number, value_one, value_two) / (field_base() * field_base())
            == block_number,
        (internal_time(block_number, value_one, value_two) / field_base()) % field_base()
            == value_one,
        internal_time(block_number, value_one, value_two) % field_base() == value_two,
{
    let b = block_number as int;
    let o = value_one as int;
    let w = value_two as int;
    let f = 10_000_000_000int;
    assert(o * f + w < f * f) by (nonlinear_arith)
        requires 0 <= o < f, 0 <= w < f, f == 10_000_000_000int;
    vstd::arithmetic::div_mod::lemma_fundamental_div_mod_converse(
        b * (f * f) + (o * f + w), f * f, b, o * f + w);
    vstd::arithmetic::div_mod::lemma_fundamental_div_mod_converse(
        b * (f * f) + o * f + w, f, b * f + o, w);
    assert(b * (f * f) + o * f + w == f * (b * f + o) + w) by (nonlinear_arith);
    vstd::arithmetic::div_mod::lemma_fundamental_div_mod_converse(b * f + o, f, b, o);
    assert(b * f + o == f * b + o) by (nonlinear_arith);
    assert(b * (f * f) + (o * f + w) == (f * f) * b + (o * f + w)) by (nonlinear_arith);
}

/// Internal times order events exactly as the (block, value_one, value_two) triples do,
/// lexicographically: one triple comes before another if and only if its internal time is
/// smaller, and two triples have the same internal time only if they are equal.
pub proof fn lemma_internal_time_order(a: (u32, u32, u32), b: (u32, u32, u32))
    ensures
        triple_lt(a, b) <==> internal_time(a.0, a.1, a.2) < internal_time(b.0, b.1, b.2),
        internal_time(a.0, a.1, a.2) == internal_time(b.0, b.1, b.2) <==> a == b,
{
    lemma_internal_time_fields(a.0, a.1, a.2);
    lemma_internal_time_fields(b.0, b.1, b.2);
    let f = 10_000_000_000int;
    let (a0, a1, a2) = (a.0 as int, a.1 as int, a.2 as int);
    let (b0, b1, b2) = (b.0 as int, b.1 as int, b.2 as int);
    let ta = a0 * (f * f) + a1 * f + a2;
    let tb = b0 * (f * f) + b1 * f + b2;
    assert(triple_lt(a, b) ==> ta < tb) by (nonlinear_arith)
        requires
            f == 10_000_000_000int,
            0 <= a0 < f, 0 <= a1 < f, 0 <= a2 < f,
            0 <= b0 < f, 0 <= b1 < f, 0 <= b2 < f,
            ta == a0 * (f * f) + a1 * f + a2,
            tb == b0 * (f * f) + b1 * f + b2,
            triple_lt(a, b) == (a0 < b0 || (a0 == b0 && a1 < b1) || (a0 == b0 && a1 == b1 && a2 < b2)),
    ;
    assert(triple_lt(b, a) ==> tb < ta) by (nonlinear_arith)
        requires
            f == 10_000_000_000int,
            0 <= a0 < f, 0 <= a1 < f, 0 <= a2 < f,
            0 <= b0 < f, 0 <= b1 < f, 0 <= b2 < f,
            ta == a0 * (f * f) + a1 * f + a2,
            tb == b0 * (f * f) + b1 * f + b2,
            triple_lt(b, a) == (b0 < a0 || (b0 == a0 && b1 < a1) || (b0 == a0 && b1 == a1 && b2 < a2)),
    ;
}

} // verus!
