//! Bit fields of hardware words, stated arithmetically.
//!
//! A field is described by its `unit` (the weight of its lowest bit, a power of
//! two) and its `size` (the number of values it holds, a power of two). The field
//! occupying bits `lo..=hi` of a word has `unit == 2^lo` and `size == 2^(hi-lo+1)`.
use vstd::prelude::*;
use vstd::arithmetic::div_mod::{
    lemma_fundamental_div_mod, lemma_fundamental_div_mod_converse, lemma_div_denominator,
    lemma_mod_mod, lemma_mod_breakdown,
};
use vstd::arithmetic::mul::lemma_mul_strictly_positive;

verus! {

/// The value held by the field (`unit`, `size`) of `word`.
pub open spec fn field(word: int, unit: int, size: int) -> int {
    (word / unit) % size
}

/// `word` with the field (`unit`, `size`) replaced by `value` reduced modulo `size`;
/// every other bit of `word` is kept.
pub open spec fn with_field(word: int, unit: int, size: int, value: int) -> int {
    word - field(word, unit, size) * unit + (value % size) * unit
}

/// The weight `bit` when `b` holds, else 0: the contribution of a one-bit flag.
pub open spec fn flag(b: bool, bit: int) -> int {
    if b {
        bit
    } else {
        0
    }
}

/// Two fields of a word do not share any bit: one of them lies wholly above the other.
pub open spec fn fields_disjoint(unit1: int, size1: int, unit2: int, size2: int) -> bool {
    ||| unit2 % (unit1 * size1) == 0
    ||| unit1 % (unit2 * size2) == 0
}

/// Replacing a field sets that field to the new value (modulo its size) and keeps
/// the bits below it and the bits above it.
pub proof fn lemma_with_field(word: int, unit: int, size: int, value: int)
    requires
        0 <= word,
        0 < unit,
        0 < size,
    ensures
        field(with_field(word, unit, size, value), unit, size) == value % size,
        with_field(word, unit, size, value) % unit == word % unit,
        with_field(word, unit, size, value) / (unit * size) == word / (unit * size),
        0 <= with_field(word, unit, size, value),
{
    let q = word / unit;
    let r0 = word % unit;
    let h = q / size;
    let f = q % size;
    let nv = value % size;
    lemma_fundamental_div_mod(word, unit);
    lemma_fundamental_div_mod(q, size);
    let nw = with_field(word, unit, size, value);
    assert(nw == unit * (size * h + nv) + r0) by (nonlinear_arith)
        requires
            word == unit * q + r0,
            q == size * h + f,
            nw == word - f * unit + nv * unit,
    {
    }
    assert(0 <= q) by (nonlinear_arith)
        requires
            0 <= word,
            0 < unit,
            q == word / unit,
    {
    }
    assert(0 <= size * h + nv) by (nonlinear_arith)
        requires
            0 <= q,
            0 < size,
            h == q / size,
            0 <= nv < size,
    {
    }
    lemma_fundamental_div_mod_converse(nw, unit, size * h + nv, r0);
    lemma_fundamental_div_mod_converse(size * h + nv, size, h, nv);
    assert(0 <= nw) by (nonlinear_arith)
        requires
            nw == unit * (size * h + nv) + r0,
            0 < unit,
            0 <= size * h + nv,
            0 <= r0,
    {
    }
    lemma_div_denominator(nw, unit, size);
    lemma_div_denominator(word, unit, size);
}

/// Replacing a field keeps every field that does not share a bit with it.
pub proof fn lemma_with_field_keeps_other(
    word: int,
    unit: int,
    size: int,
    value: int,
    unit2: int,
    size2: int,
)
    requires
        0 <= word,
        0 < unit,
        0 < size,
        0 < unit2,
        0 < size2,
        fields_disjoint(unit, size, unit2, size2),
    ensures
        field(with_field(word, unit, size, value), unit2, size2) == field(word, unit2, size2),
{
    let nw = with_field(word, unit, size, value);
    lemma_with_field(word, unit, size, value);
    lemma_mul_strictly_positive(unit, size);
    lemma_mul_strictly_positive(unit2, size2);
    if unit2 % (unit * size) == 0 {
        // The other field lies above: it is read from the bits above `unit * size`.
        let k = unit2 / (unit * size);
        lemma_fundamental_div_mod(unit2, unit * size);
        assert(unit2 == (unit * size) * k);
        assert(0 < k) by (nonlinear_arith)
            requires
                unit2 == (unit * size) * k,
                0 < unit2,
                0 < unit * size,
        {
        }
        lemma_div_denominator(nw, unit * size, k);
        lemma_div_denominator(word, unit * size, k);
    } else {
        // The other field lies below: it is read from the bits below `unit`.
        let k = unit / (unit2 * size2);
        lemma_fundamental_div_mod(unit, unit2 * size2);
        assert(unit == (unit2 * size2) * k);
        assert(0 < k) by (nonlinear_arith)
            requires
                unit == (unit2 * size2) * k,
                0 < unit,
                0 < unit2 * size2,
        {
        }
        lemma_mod_mod(nw, unit2 * size2, k);
        lemma_mod_mod(word, unit2 * size2, k);
        lemma_mod_breakdown(nw, unit2, size2);
        lemma_mod_breakdown(word, unit2, size2);
        lemma_field_from_low_bits(nw, unit2, size2);
        lemma_field_from_low_bits(word, unit2, size2);
    }
}

proof fn lemma_field_from_low_bits(x: int, unit: int, size: int)
    requires
        0 <= x,
        0 < unit,
        0 < size,
    ensures
        unit * size > 0,
        field(x, unit, size) == (x % (unit * size)) / unit,
{
    lemma_mul_strictly_positive(unit, size);
    lemma_mod_breakdown(x, unit, size);
    let f = (x / unit) % size;
    assert(0 <= f < size) by {
        assert(0 <= x / unit) by (nonlinear_arith)
            requires
                0 <= x,
                0 < unit,
        {
        }
    }
    assert(0 <= x % unit < unit);
    assert(x % (unit * size) == f * unit + x % unit) by (nonlinear_arith)
        requires
            x % (unit * size) == unit * f + x % unit,
    {
    }
    lemma_fundamental_div_mod_converse(x % (unit * size), unit, f, x % unit);
}

/// A word below `limit` stays below `limit` when one of its fields is replaced,
/// provided the field ends at or below the top of `limit`.
pub proof fn lemma_with_field_bound(word: int, unit: int, size: int, value: int, limit: int)
    requires
        0 <= word < limit,
        0 < unit,
        0 < size,
        limit % (unit * size) == 0,
    ensures
        0 <= with_field(word, unit, size, value) < limit,
{
    lemma_with_field(word, unit, size, value);
    lemma_mul_strictly_positive(unit, size);
    let us = unit * size;
    let nw = with_field(word, unit, size, value);
    let h = word / us;
    lemma_fundamental_div_mod(nw, us);
    lemma_fundamental_div_mod(word, us);
    lemma_fundamental_div_mod(limit, us);
    let lq = limit / us;
    assert(h < lq) by (nonlinear_arith)
        requires
            word == us * h + word % us,
            limit == us * lq + 0,
            0 <= word % us,
            word < limit,
            0 < us,
    {
    }
    assert(nw < limit) by (nonlinear_arith)
        requires
            nw == us * h + nw % us,
            nw % us < us,
            limit == us * lq,
            h < lq,
            0 < us,
    {
    }
}

/// The field (`unit`, `size`) of `word`.
pub fn get_field32(word: u32, unit: u32, size: u32) -> (r: u32)
    requires
        0 < unit,
        0 < size,
    ensures
        r == field(word as int, unit as int, size as int),
        r < size,
{
    (word / unit) % size
}

/// `word` with the field (`unit`, `size`) replaced by `value` reduced modulo `size`.
pub fn set_field32(word: u32, unit: u32, size: u32, value: u32) -> (r: u32)
    requires
        0 < unit,
        0 < size,
        0x1_0000_0000int % (unit as int * size as int) == 0,
    ensures
        r == with_field(word as int, unit as int, size as int, value as int),
{
    let f = (word / unit) % size;
    let nv = value % size;
    proof {
        let w = word as int;
        let u = unit as int;
        let fi = f as int;
        let nvi = nv as int;
        lemma_with_field_bound(w, u, size as int, value as int, 0x1_0000_0000);
        lemma_fundamental_div_mod(w, u);
        let q = w / u;
        assert(0 <= q) by (nonlinear_arith)
            requires
                q == w / u,
                0 < u,
                0 <= w,
        {
        }
        assert(fi <= q) by {
            vstd::arithmetic::div_mod::lemma_mod_decreases(q as nat, size as nat);
        }
        assert(fi * u <= w) by (nonlinear_arith)
            requires
                w == u * q + w % u,
                0 <= w % u,
                0 <= fi <= q,
                0 < u,
        {
        }
        assert(nvi * u <= 0xffff_ffff) by (nonlinear_arith)
            requires
                w - fi * u + nvi * u < 0x1_0000_0000,
                fi * u <= w,
        {
        }
    }
    word - f * unit + nv * unit
}

} // verus!
