use vstd::prelude::*;

verus! {

/// Largest coordinate magnitude the engine computes with. Every pixel value
/// the engine produces is kept inside `[-COORD_LIMIT, COORD_LIMIT]`; degenerate
/// geometry (oversized padding, huge trees) saturates at this bound instead of
/// failing, since a frame must never abort mid-render.
pub const COORD_LIMIT: i64 = 0x4000_0000;

/// Fixed-point one: fractions, progress values and transform entries carry
/// sixteen fractional bits.
pub const FRAC_ONE: i64 = 0x1_0000;

/// True when `x` is inside the engine's coordinate range.
pub open spec fn fits(x: int) -> bool {
    -(COORD_LIMIT as int) <= x <= COORD_LIMIT as int
}

/// Saturates `x` into `[-COORD_LIMIT, COORD_LIMIT]`.
pub open spec fn clip(x: int) -> int {
    if x > COORD_LIMIT as int {
        COORD_LIMIT as int
    } else if x < -(COORD_LIMIT as int) {
        -(COORD_LIMIT as int)
    } else {
        x
    }
}

/// Saturates `x` into `[0, COORD_LIMIT]`: extents are never negative.
pub open spec fn clip0(x: int) -> int {
    if x > COORD_LIMIT as int {
        COORD_LIMIT as int
    } else if x < 0 {
        0
    } else {
        x
    }
}

/// `clip`, landing in the machine integer the engine stores.
pub open spec fn clip64(x: int) -> i64 {
    clip(x) as i64
}

/// `clip0`, landing in the machine integer the engine stores.
pub open spec fn clip064(x: int) -> i64 {
    clip0(x) as i64
}

/// Round-toward-zero division by a positive divisor, as the hardware divides.
pub open spec fn tdiv(a: int, d: int) -> int
    recommends
        d > 0,
{
    if a >= 0 {
        a / d
    } else {
        -((-a) / d)
    }
}

/// Saturates a machine integer into the coordinate range.
pub fn clip_i64(x: i64) -> (r: i64)
    ensures
        r == clip64(x as int),
{
    if x > COORD_LIMIT {
        COORD_LIMIT
    } else if x < -COORD_LIMIT {
        -COORD_LIMIT
    } else {
        x
    }
}

/// Saturates a machine integer into `[0, COORD_LIMIT]`.
pub fn clip0_i64(x: i64) -> (r: i64)
    ensures
        r == clip064(x as int),
{
    if x > COORD_LIMIT {
        COORD_LIMIT
    } else if x < 0 {
        0
    } else {
        x
    }
}

/// Saturating addition of two in-range coordinates.
pub fn clip_add(a: i64, b: i64) -> (r: i64)
    requires
        fits(a as int),
        fits(b as int),
    ensures
        r == clip64(a as int + b as int),
{
    clip_i64(a + b)
}

/// Saturating addition of three in-range coordinates.
pub fn clip_add3(a: i64, b: i64, c: i64) -> (r: i64)
    requires
        fits(a as int),
        fits(b as int),
        fits(c as int),
    ensures
        r == clip64(a as int + b as int + c as int),
{
    clip_i64(a + b + c)
}

/// Exact product of two in-range coordinates; it always fits the machine word.
pub fn mul_wide(a: i64, b: i64) -> (r: i64)
    requires
        fits(a as int),
        fits(b as int),
    ensures
        r as int == a as int * b as int,
        -0x1000_0000_0000_0000 <= r <= 0x1000_0000_0000_0000,
{
    proof {
        assert((-(0x1000_0000_0000_0000int) <= a as int * b as int
            <= 0x1000_0000_0000_0000int)) by (nonlinear_arith)
            requires
                fits(a as int),
                fits(b as int),
        ;
    }
    a * b
}

/// Division of a non-negative value by a positive divisor.
pub fn div_nn(a: i64, d: i64) -> (r: i64)
    requires
        0 <= a,
        0 < d,
    ensures
        r as int == a as int / d as int,
        0 <= r <= a,
{
    proof {
        vstd::arithmetic::div_mod::lemma_div_nonincreasing(a as int, d as int);
        vstd::arithmetic::div_mod::lemma_div_pos_is_pos(a as int, d as int);
    }
    a / d
}

/// Round-toward-zero division by a positive divisor.
pub fn div_trunc(a: i64, d: i64) -> (r: i64)
    requires
        -0x4000_0000_0000_0000 <= a <= 0x4000_0000_0000_0000,
        0 < d,
    ensures
        r as int == tdiv(a as int, d as int),
{
    if a >= 0 {
        div_nn(a, d)
    } else {
        let n: i64 = -a;
        -div_nn(n, d)
    }
}

} // verus!
