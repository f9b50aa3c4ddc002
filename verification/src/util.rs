use vstd::prelude::*;
use vstd::arithmetic::div_mod::{
    lemma_div_is_ordered, lemma_div_pos_is_pos, lemma_fundamental_div_mod_converse,
};
use crate::primitives::{pixel_bounded, Vector2i};

verus! {

/// Number of fixed-point sub-units per unit: a stored value `v`
/// stands for the real number `v / SCALE`.
pub const SCALE: i128 = 1048576;

/// Largest fixed-point coordinate magnitude the pipeline accepts:
/// one `SCALE` worth of pixels in either direction.
pub const MAX_COORD: i128 = 1048576 * 1048576;

/// Largest fixed-point attribute component magnitude the pipeline accepts.
pub const MAX_ATTR: i128 = 1048576 * 1048576;

/// Largest pixel coordinate magnitude a rounded vertex can have
/// (`MAX_COORD / SCALE`).
pub const MAX_PIXEL: i64 = 1048576;

/// `num / den` rounded to the nearest integer, ties away from zero,
/// for a positive denominator (0 otherwise). This is the single
/// rounding rule of the pipeline, used for vertex snapping, scanline
/// bounds and attribute blending.
pub open spec fn rounded_ratio(num: int, den: int) -> int {
    if den <= 0 {
        0
    } else if num >= 0 {
        (2 * num + den) / (2 * den)
    } else {
        -(((-(2 * num)) + den) / (2 * den))
    }
}

/// Rounding an exact multiple of the denominator gives the exact quotient.
pub proof fn lemma_rounded_ratio_exact(c: int, den: int)
    requires
        den >= 1,
    ensures
        rounded_ratio(c * den, den) == c,
{
    if c >= 0 {
        assert(c * den >= 0) by (nonlinear_arith)
            requires
                c >= 0,
                den >= 1,
        ;
        assert(2 * (c * den) + den == c * (2 * den) + den) by (nonlinear_arith);
        lemma_fundamental_div_mod_converse(c * (2 * den) + den, 2 * den, c, den);
    } else {
        assert(c * den < 0) by (nonlinear_arith)
            requires
                c < 0,
                den >= 1,
        ;
        assert((-(2 * (c * den))) + den == (-c) * (2 * den) + den) by (nonlinear_arith);
        lemma_fundamental_div_mod_converse((-c) * (2 * den) + den, 2 * den, -c, den);
    }
}

/// Rounding is monotone in the numerator.
pub proof fn lemma_rounded_ratio_ordered(a: int, b: int, den: int)
    requires
        den >= 1,
        a <= b,
    ensures
        rounded_ratio(a, den) <= rounded_ratio(b, den),
{
    if a >= 0 {
        lemma_div_is_ordered(2 * a + den, 2 * b + den, 2 * den);
    } else if b < 0 {
        lemma_div_is_ordered((-(2 * b)) + den, (-(2 * a)) + den, 2 * den);
    } else {
        lemma_div_pos_is_pos(2 * b + den, 2 * den);
        lemma_div_pos_is_pos((-(2 * a)) + den, 2 * den);
    }
}

/// A numerator between two exact multiples of the denominator rounds
/// to a quotient between the two factors.
pub proof fn lemma_rounded_ratio_bounds(num: int, den: int, lo: int, hi: int)
    requires
        den >= 1,
        lo * den <= num,
        num <= hi * den,
    ensures
        lo <= rounded_ratio(num, den) <= hi,
{
    lemma_rounded_ratio_exact(lo, den);
    lemma_rounded_ratio_exact(hi, den);
    lemma_rounded_ratio_ordered(lo * den, num, den);
    lemma_rounded_ratio_ordered(num, hi * den, den);
}

/// `num / den` rounded to nearest, ties away from zero, on 64-bit values.
pub fn round_div_i64(num: i64, den: i64) -> (r: i64)
    requires
        1 <= den <= 0x1000_0000_0000_0000,
        -0x1000_0000_0000_0000 <= num <= 0x1000_0000_0000_0000,
    ensures
        r == rounded_ratio(num as int, den as int),
{
    if num >= 0 {
        let q: u64 = ((2 * num + den) as u64) / ((2 * den) as u64);
        q as i64
    } else {
        let q: u64 = (((-(2 * num)) + den) as u64) / ((2 * den) as u64);
        -(q as i64)
    }
}

/// `num / den` rounded to nearest, ties away from zero, on 128-bit values.
pub fn round_div_i128(num: i128, den: i128) -> (r: i128)
    requires
        1 <= den <= 0x1_0000_0000_0000_0000_0000_0000_0000,
        -0x1_0000_0000_0000_0000_0000_0000_0000 <= num
            <= 0x1_0000_0000_0000_0000_0000_0000_0000,
    ensures
        r == rounded_ratio(num as int, den as int),
{
    if num >= 0 {
        let q: u128 = ((2 * num + den) as u128) / ((2 * den) as u128);
        q as i128
    } else {
        let q: u128 = (((-(2 * num)) + den) as u128) / ((2 * den) as u128);
        -(q as i128)
    }
}

/// Product of two bounded 64-bit values, exactly.
pub fn mul_i64(a: i64, b: i64) -> (r: i64)
    requires
        -0x4000_0000 <= a <= 0x4000_0000,
        -0x4000_0000 <= b <= 0x4000_0000,
    ensures
        r == a * b,
{
    proof {
        assert(-0x1000_0000_0000_0000 <= a * b <= 0x1000_0000_0000_0000) by (nonlinear_arith)
            requires
                -0x4000_0000 <= a <= 0x4000_0000,
                -0x4000_0000 <= b <= 0x4000_0000,
        ;
    }
    a * b
}

/// Product of two bounded 128-bit values, exactly.
pub fn mul_i128(a: i128, b: i128) -> (r: i128)
    requires
        -0x4000_0000_0000_0000 <= a <= 0x4000_0000_0000_0000,
        -0x4000_0000_0000_0000 <= b <= 0x4000_0000_0000_0000,
    ensures
        r == a * b,
{
    proof {
        assert(-0x1000_0000_0000_0000_0000_0000_0000_0000 <= a * b
            <= 0x1000_0000_0000_0000_0000_0000_0000_0000) by (nonlinear_arith)
            requires
                -0x4000_0000_0000_0000 <= a <= 0x4000_0000_0000_0000,
                -0x4000_0000_0000_0000 <= b <= 0x4000_0000_0000_0000,
        ;
    }
    a * b
}

/// Every product of two factors of magnitude at most `2^23` has
/// magnitude at most `2^46`.
pub proof fn lemma_products_small()
    ensures
        forall|a: int, b: int|
            -0x80_0000 <= a <= 0x80_0000 && -0x80_0000 <= b <= 0x80_0000
                ==> -0x4000_0000_0000 <= #[trigger] (a * b) <= 0x4000_0000_0000,
{
    assert(forall|a: int, b: int|
        -0x80_0000 <= a <= 0x80_0000 && -0x80_0000 <= b <= 0x80_0000
            ==> -0x4000_0000_0000 <= #[trigger] (a * b) <= 0x4000_0000_0000) by (nonlinear_arith);
}

/// Every product of a factor of magnitude at most `2^50` and one of
/// magnitude at most `2^60` has magnitude at most `2^110`.
pub proof fn lemma_products_wide()
    ensures
        forall|a: int, b: int|
            -0x4_0000_0000_0000 <= a <= 0x4_0000_0000_0000
                && -0x1000_0000_0000_0000 <= b <= 0x1000_0000_0000_0000
                ==> -0x4000_0000_0000_0000_0000_0000_0000 <= #[trigger] (a * b)
                    <= 0x4000_0000_0000_0000_0000_0000_0000,
{
    assert(forall|a: int, b: int|
        -0x4_0000_0000_0000 <= a <= 0x4_0000_0000_0000
            && -0x1000_0000_0000_0000 <= b <= 0x1000_0000_0000_0000
            ==> -0x4000_0000_0000_0000_0000_0000_0000 <= #[trigger] (a * b)
                <= 0x4000_0000_0000_0000_0000_0000_0000) by (nonlinear_arith);
}

/// The point at parameter `t_num / t_den` on the segment from `v1` to
/// `v2`, each coordinate rounded to the nearest integer.
pub open spec fn spec_lerp2i(v1: Vector2i, v2: Vector2i, t_num: int, t_den: int) -> Vector2i {
    Vector2i {
        x: rounded_ratio(v1.x * t_den + t_num * (v2.x - v1.x), t_den) as i64,
        y: rounded_ratio(v1.y * t_den + t_num * (v2.y - v1.y), t_den) as i64,
    }
}

/// Linear interpolation between two integer points at parameter
/// `t_num / t_den`, rounding each coordinate to the nearest integer.
pub fn vector2i_lerp(v1: &Vector2i, v2: &Vector2i, t_num: i64, t_den: i64) -> (r: Vector2i)
    requires
        1 <= t_den <= 0x40_0000,
        0 <= t_num <= t_den,
        pixel_bounded(*v1, MAX_PIXEL as int),
        pixel_bounded(*v2, MAX_PIXEL as int),
    ensures
        r == spec_lerp2i(*v1, *v2, t_num as int, t_den as int),
        pixel_bounded(r, MAX_PIXEL as int),
        v1.x <= v2.x ==> v1.x <= r.x <= v2.x,
        v2.x <= v1.x ==> v2.x <= r.x <= v1.x,
        v1.y <= v2.y ==> v1.y <= r.y <= v2.y,
        v2.y <= v1.y ==> v2.y <= r.y <= v1.y,
{
    proof {
        assert(forall|a: int, b: int|
            -0x40_0000 <= a <= 0x40_0000 && -0x40_0000 <= b <= 0x40_0000
                ==> -0x1000_0000_0000 <= #[trigger] (a * b) <= 0x1000_0000_0000) by (nonlinear_arith);
    }
    let xn: i64 = mul_i64(v1.x, t_den) + mul_i64(t_num, v2.x - v1.x);
    let yn: i64 = mul_i64(v1.y, t_den) + mul_i64(t_num, v2.y - v1.y);
    proof {
        lemma_lerp_num_in_segment(v1.x as int, v2.x as int, t_num as int, t_den as int);
        lemma_lerp_num_in_segment(v1.y as int, v2.y as int, t_num as int, t_den as int);
        lemma_rounded_ratio_bounds(
            xn as int,
            t_den as int,
            if v1.x <= v2.x { v1.x as int } else { v2.x as int },
            if v1.x <= v2.x { v2.x as int } else { v1.x as int },
        );
        lemma_rounded_ratio_bounds(
            yn as int,
            t_den as int,
            if v1.y <= v2.y { v1.y as int } else { v2.y as int },
            if v1.y <= v2.y { v2.y as int } else { v1.y as int },
        );
    }
    let x: i64 = round_div_i64(xn, t_den);
    let y: i64 = round_div_i64(yn, t_den);
    Vector2i { x, y }
}

/// The interpolation numerator `a * t_den + t_num * (b - a)` lies
/// between `min(a, b) * t_den` and `max(a, b) * t_den` when
/// `0 <= t_num <= t_den`.
pub proof fn lemma_lerp_num_in_segment(a: int, b: int, t_num: int, t_den: int)
    requires
        t_den >= 1,
        0 <= t_num <= t_den,
    ensures
        a <= b ==> a * t_den <= a * t_den + t_num * (b - a) <= b * t_den,
        b <= a ==> b * t_den <= a * t_den + t_num * (b - a) <= a * t_den,
{
    assert(a <= b ==> a * t_den <= a * t_den + t_num * (b - a) <= b * t_den) by (nonlinear_arith)
        requires
            t_den >= 1,
            0 <= t_num <= t_den,
    ;
    assert(b <= a ==> b * t_den <= a * t_den + t_num * (b - a) <= a * t_den) by (nonlinear_arith)
        requires
            t_den >= 1,
            0 <= t_num <= t_den,
    ;
}

} // verus!
