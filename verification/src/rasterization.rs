use vstd::prelude::*;
use crate::primitives::{
    meta_bounded, pixel_bounded, vec2_bounded, Triangle2, Vector2, Vector2i, Vector3, Vector4,
    VertexMetadata,
};
use crate::util::{
    lemma_products_small, lemma_products_wide, lemma_rounded_ratio_bounds,
    lemma_rounded_ratio_exact, lemma_rounded_ratio_ordered, mul_i128, mul_i64, round_div_i128,
    round_div_i64, rounded_ratio, spec_lerp2i, vector2i_lerp, MAX_ATTR, MAX_COORD, MAX_PIXEL,
    SCALE,
};

verus! {

/// Largest pixel-coordinate magnitude `barycentric_coords` accepts.
pub const BARY_COORD_BOUND: i64 = 2097152;

/// Largest weight-numerator or denominator magnitude `interpolate_meta` accepts.
pub const WEIGHT_BOUND: i64 = 0x4_0000_0000_0000;

/// Largest attribute-component magnitude `interpolate_meta` accepts.
pub const BLEND_ATTR_BOUND: i128 = 0x1000_0000_0000_0000;

/// Barycentric weights of a point with respect to a triangle, kept
/// exact as three numerators over one common denominator: the weight
/// of vertex `i` is `ni / den`. `den` is twice the triangle's signed
/// area; it is 0 exactly when the triangle is degenerate.
#[derive(Clone, Copy, Debug, PartialEq, Eq)]
pub struct BaryWeights {
    pub n1: i64,
    pub n2: i64,
    pub n3: i64,
    pub den: i64,
}

/// Twice the signed area of the triangle `(v1, v2, v3)`; the common
/// denominator of the barycentric weights.
pub open spec fn bary_den(v1: Vector2i, v2: Vector2i, v3: Vector2i) -> int {
    (v2.y - v3.y) * (v1.x - v3.x) + (v3.x - v2.x) * (v1.y - v3.y)
}

/// Numerator of the first barycentric weight of point `(px, py)`.
pub open spec fn bary_n1(px: int, py: int, v1: Vector2i, v2: Vector2i, v3: Vector2i) -> int {
    (v2.y - v3.y) * (px - v3.x) + (v3.x - v2.x) * (py - v3.y)
}

/// Numerator of the second barycentric weight of point `(px, py)`.
pub open spec fn bary_n2(px: int, py: int, v1: Vector2i, v2: Vector2i, v3: Vector2i) -> int {
    (v3.y - v1.y) * (px - v3.x) + (v1.x - v3.x) * (py - v3.y)
}

/// Numerator of the third barycentric weight: the remainder that
/// makes the three weights sum to exactly 1.
pub open spec fn bary_n3(px: int, py: int, v1: Vector2i, v2: Vector2i, v3: Vector2i) -> int {
    bary_den(v1, v2, v3) - bary_n1(px, py, v1, v2, v3) - bary_n2(px, py, v1, v2, v3)
}

/// Barycentric weights of `p` with respect to the triangle
/// `(v1, v2, v3)`, by the standard signed-area ratio formula. The
/// third weight is the remainder `den - n1 - n2`, so the three
/// weights sum to exactly one denominator's worth for every input.
pub fn barycentric_coords(p: &Vector2i, v1: &Vector2i, v2: &Vector2i, v3: &Vector2i) -> (w:
    BaryWeights)
    requires
        pixel_bounded(*p, BARY_COORD_BOUND as int),
        pixel_bounded(*v1, BARY_COORD_BOUND as int),
        pixel_bounded(*v2, BARY_COORD_BOUND as int),
        pixel_bounded(*v3, BARY_COORD_BOUND as int),
    ensures
        w.n1 == bary_n1(p.x as int, p.y as int, *v1, *v2, *v3),
        w.n2 == bary_n2(p.x as int, p.y as int, *v1, *v2, *v3),
        w.n3 == bary_n3(p.x as int, p.y as int, *v1, *v2, *v3),
        w.den == bary_den(*v1, *v2, *v3),
        w.n1 + w.n2 + w.n3 == w.den,
        -0x8000_0000_0000 <= w.n1 <= 0x8000_0000_0000,
        -0x8000_0000_0000 <= w.n2 <= 0x8000_0000_0000,
        -0x8000_0000_0000 <= w.den <= 0x8000_0000_0000,
        -0x2_0000_0000_0000 <= w.n3 <= 0x2_0000_0000_0000,
{
    proof {
        lemma_products_small();
    }
    let n1: i64 = mul_i64(v2.y - v3.y, p.x - v3.x) + mul_i64(v3.x - v2.x, p.y - v3.y);
    let n2: i64 = mul_i64(v3.y - v1.y, p.x - v3.x) + mul_i64(v1.x - v3.x, p.y - v3.y);
    let den: i64 = mul_i64(v2.y - v3.y, v1.x - v3.x) + mul_i64(v3.x - v2.x, v1.y - v3.y);
    let n3: i64 = den - n1 - n2;
    BaryWeights { n1, n2, n3, den }
}

/// The weighted combination `(n1*a1 + n2*a2 + n3*a3) / den`, rounded
/// to the nearest integer: one interpolated attribute component.
pub open spec fn blend_s(
    n1: int,
    n2: int,
    n3: int,
    den: int,
    a1: int,
    a2: int,
    a3: int,
) -> int {
    rounded_ratio(n1 * a1 + n2 * a2 + n3 * a3, den)
}

/// One interpolated attribute component, computed exactly.
fn blend_component(n1: i64, n2: i64, n3: i64, den: i64, a1: i128, a2: i128, a3: i128) -> (r: i128)
    requires
        -WEIGHT_BOUND <= n1 <= WEIGHT_BOUND,
        -WEIGHT_BOUND <= n2 <= WEIGHT_BOUND,
        -WEIGHT_BOUND <= n3 <= WEIGHT_BOUND,
        1 <= den <= WEIGHT_BOUND,
        -BLEND_ATTR_BOUND <= a1 <= BLEND_ATTR_BOUND,
        -BLEND_ATTR_BOUND <= a2 <= BLEND_ATTR_BOUND,
        -BLEND_ATTR_BOUND <= a3 <= BLEND_ATTR_BOUND,
    ensures
        r == blend_s(n1 as int, n2 as int, n3 as int, den as int, a1 as int, a2 as int, a3 as int),
{
    proof {
        lemma_products_wide();
    }
    let s: i128 = mul_i128(n1 as i128, a1) + mul_i128(n2 as i128, a2) + mul_i128(n3 as i128, a3);
    round_div_i128(s, den as i128)
}

/// Attribute interpolation at barycentric weights `n1/den, n2/den,
/// n3/den`: for each attribute slot independently, the weighted sum
/// of the three inputs if all three supply it, absent otherwise. A
/// zero denominator (degenerate span) yields the empty record.
pub open spec fn spec_interpolate(
    n1: int,
    n2: int,
    n3: int,
    den: int,
    m1: VertexMetadata,
    m2: VertexMetadata,
    m3: VertexMetadata,
) -> VertexMetadata {
    if den == 0 {
        VertexMetadata::spec_empty()
    } else {
        let p1 = if den < 0 { -n1 } else { n1 };
        let p2 = if den < 0 { -n2 } else { n2 };
        let p3 = if den < 0 { -n3 } else { n3 };
        let pd = if den < 0 { -den } else { den };
        VertexMetadata {
            world_pos: match (m1.world_pos, m2.world_pos, m3.world_pos) {
                (Some(a), Some(b), Some(c)) => Some(
                    (Vector3 {
                        x: blend_s(p1, p2, p3, pd, a.x as int, b.x as int, c.x as int) as i128,
                        y: blend_s(p1, p2, p3, pd, a.y as int, b.y as int, c.y as int) as i128,
                        z: blend_s(p1, p2, p3, pd, a.z as int, b.z as int, c.z as int) as i128,
                    }),
                ),
                _ => None,
            },
            texture_coord: match (m1.texture_coord, m2.texture_coord, m3.texture_coord) {
                (Some(a), Some(b), Some(c)) => Some(
                    (Vector2 {
                        x: blend_s(p1, p2, p3, pd, a.x as int, b.x as int, c.x as int) as i128,
                        y: blend_s(p1, p2, p3, pd, a.y as int, b.y as int, c.y as int) as i128,
                    }),
                ),
                _ => None,
            },
            normal: match (m1.normal, m2.normal, m3.normal) {
                (Some(a), Some(b), Some(c)) => Some(
                    (Vector3 {
                        x: blend_s(p1, p2, p3, pd, a.x as int, b.x as int, c.x as int) as i128,
                        y: blend_s(p1, p2, p3, pd, a.y as int, b.y as int, c.y as int) as i128,
                        z: blend_s(p1, p2, p3, pd, a.z as int, b.z as int, c.z as int) as i128,
                    }),
                ),
                _ => None,
            },
            color: match (m1.color, m2.color, m3.color) {
                (Some(a), Some(b), Some(c)) => Some(
                    (Vector4 {
                        x: blend_s(p1, p2, p3, pd, a.x as int, b.x as int, c.x as int) as i128,
                        y: blend_s(p1, p2, p3, pd, a.y as int, b.y as int, c.y as int) as i128,
                        z: blend_s(p1, p2, p3, pd, a.z as int, b.z as int, c.z as int) as i128,
                        w: blend_s(p1, p2, p3, pd, a.w as int, b.w as int, c.w as int) as i128,
                    }),
                ),
                _ => None,
            },
        }
    }
}

/// Blends the optional per-vertex attributes of three vertices at the
/// given barycentric weights, attribute slot by attribute slot.
pub fn interpolate_meta(
    w: &BaryWeights,
    m1: &VertexMetadata,
    m2: &VertexMetadata,
    m3: &VertexMetadata,
) -> (r: VertexMetadata)
    requires
        -WEIGHT_BOUND <= w.n1 <= WEIGHT_BOUND,
        -WEIGHT_BOUND <= w.n2 <= WEIGHT_BOUND,
        -WEIGHT_BOUND <= w.n3 <= WEIGHT_BOUND,
        -WEIGHT_BOUND <= w.den <= WEIGHT_BOUND,
        meta_bounded(*m1, BLEND_ATTR_BOUND as int),
        meta_bounded(*m2, BLEND_ATTR_BOUND as int),
        meta_bounded(*m3, BLEND_ATTR_BOUND as int),
    ensures
        r == spec_interpolate(
            w.n1 as int,
            w.n2 as int,
            w.n3 as int,
            w.den as int,
            *m1,
            *m2,
            *m3,
        ),
{
    if w.den == 0 {
        VertexMetadata::empty()
    } else {
        let n1: i64 = if w.den < 0 { -w.n1 } else { w.n1 };
        let n2: i64 = if w.den < 0 { -w.n2 } else { w.n2 };
        let n3: i64 = if w.den < 0 { -w.n3 } else { w.n3 };
        let den: i64 = if w.den < 0 { -w.den } else { w.den };
        let world_pos = match (m1.world_pos, m2.world_pos, m3.world_pos) {
            (Some(a), Some(b), Some(c)) => Some(
                Vector3 {
                    x: blend_component(n1, n2, n3, den, a.x, b.x, c.x),
                    y: blend_component(n1, n2, n3, den, a.y, b.y, c.y),
                    z: blend_component(n1, n2, n3, den, a.z, b.z, c.z),
                },
            ),
            _ => None,
        };
        let texture_coord = match (m1.texture_coord, m2.texture_coord, m3.texture_coord) {
            (Some(a), Some(b), Some(c)) => Some(
                Vector2 {
                    x: blend_component(n1, n2, n3, den, a.x, b.x, c.x),
                    y: blend_component(n1, n2, n3, den, a.y, b.y, c.y),
                },
            ),
            _ => None,
        };
        let normal = match (m1.normal, m2.normal, m3.normal) {
            (Some(a), Some(b), Some(c)) => Some(
                Vector3 {
                    x: blend_component(n1, n2, n3, den, a.x, b.x, c.x),
                    y: blend_component(n1, n2, n3, den, a.y, b.y, c.y),
                    z: blend_component(n1, n2, n3, den, a.z, b.z, c.z),
                },
            ),
            _ => None,
        };
        let color = match (m1.color, m2.color, m3.color) {
            (Some(a), Some(b), Some(c)) => Some(
                Vector4 {
                    x: blend_component(n1, n2, n3, den, a.x, b.x, c.x),
                    y: blend_component(n1, n2, n3, den, a.y, b.y, c.y),
                    z: blend_component(n1, n2, n3, den, a.z, b.z, c.z),
                    w: blend_component(n1, n2, n3, den, a.w, b.w, c.w),
                },
            ),
            _ => None,
        };
        VertexMetadata { world_pos, texture_coord, normal, color }
    }
}

/// The walking state of one flat span: the rows it covers and the two
/// boundary lines, each given by its x at the top row (`xl0`, `xr0`)
/// and its x at the bottom row (`xl1`, `xr1`), together with the three
/// corners and their attributes for interpolation.
pub ghost struct SpanCfg {
    pub ytop: int,
    pub dy: int,
    pub xl0: int,
    pub xl1: int,
    pub xr0: int,
    pub xr1: int,
    pub tip: Vector2i,
    pub left: Vector2i,
    pub right: Vector2i,
    pub mt: VertexMetadata,
    pub ml: VertexMetadata,
    pub mr: VertexMetadata,
}

/// The walking state of the flat span with tip `tip` and horizontal
/// base from `l` to `r`: rows run from the lesser of the tip row and
/// the base row down to the greater; both boundaries start at the
/// top-row corner(s) and end at the bottom-row corner(s).
pub open spec fn span_cfg(
    tip: Vector2i,
    l: Vector2i,
    r: Vector2i,
    mt: VertexMetadata,
    ml: VertexMetadata,
    mr: VertexMetadata,
) -> SpanCfg {
    if tip.y < l.y {
        SpanCfg {
            ytop: tip.y as int,
            dy: l.y - tip.y,
            xl0: tip.x as int,
            xl1: l.x as int,
            xr0: tip.x as int,
            xr1: r.x as int,
            tip,
            left: l,
            right: r,
            mt,
            ml,
            mr,
        }
    } else {
        SpanCfg {
            ytop: l.y as int,
            dy: tip.y - l.y,
            xl0: l.x as int,
            xl1: tip.x as int,
            xr0: r.x as int,
            xr1: tip.x as int,
            tip,
            left: l,
            right: r,
            mt,
            ml,
            mr,
        }
    }
}

/// The left pixel column of row `k` of a span: the left boundary at
/// that row, rounded to the nearest integer.
pub open spec fn span_left_col(c: SpanCfg, k: int) -> int {
    rounded_ratio(c.xl0 * c.dy + k * (c.xl1 - c.xl0), c.dy)
}

/// The right pixel column of row `k` of a span.
pub open spec fn span_right_col(c: SpanCfg, k: int) -> int {
    rounded_ratio(c.xr0 * c.dy + k * (c.xr1 - c.xr0), c.dy)
}

/// The fragment emitted at pixel `(x, y)` of a span: the pixel paired
/// with the attributes interpolated there.
pub open spec fn span_frag(c: SpanCfg, x: int, y: int) -> (Vector2i, VertexMetadata) {
    (
        (Vector2i { x: x as i64, y: y as i64 }),
        spec_interpolate(
            bary_n1(x, y, c.tip, c.left, c.right),
            bary_n2(x, y, c.tip, c.left, c.right),
            bary_n3(x, y, c.tip, c.left, c.right),
            bary_den(c.tip, c.left, c.right),
            c.mt,
            c.ml,
            c.mr,
        ),
    )
}

/// The fragments of row `k` of a span, left to right: one per integer
/// column between the rounded boundaries, inclusive.
pub open spec fn span_row(c: SpanCfg, k: int) -> Seq<(Vector2i, VertexMetadata)> {
    let lc = span_left_col(c, k);
    let rc = span_right_col(c, k);
    if lc <= rc {
        Seq::new((rc + 1 - lc) as nat, |i: int| span_frag(c, lc + i, c.ytop + k))
    } else {
        Seq::empty()
    }
}

/// The fragments of rows 0 through `k` of a span, top to bottom.
pub open spec fn span_rows(c: SpanCfg, k: int) -> Seq<(Vector2i, VertexMetadata)>
    decreases k + 1,
{
    if k < 0 {
        Seq::empty()
    } else {
        span_rows(c, k - 1) + span_row(c, k)
    }
}

/// All fragments of the flat span with tip `tip` and horizontal base
/// from `l` to `r`, walked row by row from the top row to the bottom
/// row, each row left to right.
pub open spec fn spec_scan_span(
    tip: Vector2i,
    l: Vector2i,
    r: Vector2i,
    mt: VertexMetadata,
    ml: VertexMetadata,
    mr: VertexMetadata,
) -> Seq<(Vector2i, VertexMetadata)> {
    let c = span_cfg(tip, l, r, mt, ml, mr);
    span_rows(c, c.dy)
}

/// The least of three values.
pub open spec fn min3(a: int, b: int, c: int) -> int {
    if a <= b && a <= c {
        a
    } else if b <= c {
        b
    } else {
        c
    }
}

/// The greatest of three values.
pub open spec fn max3(a: int, b: int, c: int) -> int {
    if a >= b && a >= c {
        a
    } else if b >= c {
        b
    } else {
        c
    }
}

/// `p` lies in the axis-aligned bounding box of the three span corners.
pub open spec fn span_box_contains(tip: Vector2i, l: Vector2i, r: Vector2i, p: Vector2i) -> bool {
    &&& min3(tip.x as int, l.x as int, r.x as int) <= p.x as int
    &&& p.x as int <= max3(tip.x as int, l.x as int, r.x as int)
    &&& tip.y <= l.y ==> tip.y <= p.y <= l.y
    &&& l.y <= tip.y ==> l.y <= p.y <= tip.y
}

/// Both scanline boundary columns of row `k` lie between their line's
/// two endpoint columns, and the left one never passes the right one.
proof fn lemma_span_cols(c: SpanCfg, k: int)
    requires
        1 <= c.dy,
        0 <= k <= c.dy,
        c.xl0 <= c.xr0,
        c.xl1 <= c.xr1,
    ensures
        (if c.xl0 <= c.xl1 { c.xl0 } else { c.xl1 }) <= span_left_col(c, k),
        span_left_col(c, k) <= (if c.xl0 <= c.xl1 { c.xl1 } else { c.xl0 }),
        (if c.xr0 <= c.xr1 { c.xr0 } else { c.xr1 }) <= span_right_col(c, k),
        span_right_col(c, k) <= (if c.xr0 <= c.xr1 { c.xr1 } else { c.xr0 }),
        span_left_col(c, k) <= span_right_col(c, k),
{
    let lnum = c.xl0 * c.dy + k * (c.xl1 - c.xl0);
    let rnum = c.xr0 * c.dy + k * (c.xr1 - c.xr0);
    crate::util::lemma_lerp_num_in_segment(c.xl0, c.xl1, k, c.dy);
    crate::util::lemma_lerp_num_in_segment(c.xr0, c.xr1, k, c.dy);
    if c.xl0 <= c.xl1 {
        lemma_rounded_ratio_bounds(lnum, c.dy, c.xl0, c.xl1);
    } else {
        lemma_rounded_ratio_bounds(lnum, c.dy, c.xl1, c.xl0);
    }
    if c.xr0 <= c.xr1 {
        lemma_rounded_ratio_bounds(rnum, c.dy, c.xr0, c.xr1);
    } else {
        lemma_rounded_ratio_bounds(rnum, c.dy, c.xr1, c.xr0);
    }
    assert(lnum <= rnum) by (nonlinear_arith)
        requires
            c.xl0 <= c.xr0,
            c.xl1 <= c.xr1,
            0 <= k <= c.dy,
            lnum == c.xl0 * c.dy + k * (c.xl1 - c.xl0),
            rnum == c.xr0 * c.dy + k * (c.xr1 - c.xr0),
    ;
    lemma_rounded_ratio_ordered(lnum, rnum, c.dy);
}

/// Walks the scanlines of one flat span and emits its fragments, top
/// row to bottom row, left to right within a row.
#[verifier::loop_isolation(false)]
fn scan_span(
    tip: Vector2i,
    l: Vector2i,
    r: Vector2i,
    mt: &VertexMetadata,
    ml: &VertexMetadata,
    mr: &VertexMetadata,
) -> (res: Vec<(Vector2i, VertexMetadata)>)
    requires
        l.y == r.y,
        tip.y != l.y,
        l.x <= r.x,
        pixel_bounded(tip, MAX_PIXEL as int),
        pixel_bounded(l, MAX_PIXEL as int),
        pixel_bounded(r, MAX_PIXEL as int),
        meta_bounded(*mt, MAX_ATTR as int),
        meta_bounded(*ml, MAX_ATTR as int),
        meta_bounded(*mr, MAX_ATTR as int),
    ensures
        res@ == spec_scan_span(tip, l, r, *mt, *ml, *mr),
        forall|i: int|
            0 <= i < res@.len() ==> span_box_contains(tip, l, r, (#[trigger] res@[i]).0),
{
    let ghost c = span_cfg(tip, l, r, *mt, *ml, *mr);
    let tip_up = tip.y < l.y;
    let ytop: i64 = if tip_up { tip.y } else { l.y };
    let dy: i64 = if tip_up { l.y - tip.y } else { tip.y - l.y };
    let xl0: i64 = if tip_up { tip.x } else { l.x };
    let xl1: i64 = if tip_up { l.x } else { tip.x };
    let xr0: i64 = if tip_up { tip.x } else { r.x };
    let xr1: i64 = if tip_up { r.x } else { tip.x };
    proof {
        assert(c.ytop == ytop as int && c.dy == dy as int && c.xl0 == xl0 as int && c.xl1 == xl1
            as int && c.xr0 == xr0 as int && c.xr1 == xr1 as int);
    }
    let mut res: Vec<(Vector2i, VertexMetadata)> = Vec::new();
    let mut k: i64 = 0;
    while k <= dy
        invariant
            0 <= k <= dy + 1,
            res@ == span_rows(c, k - 1),
            forall|i: int|
                0 <= i < res@.len() ==> span_box_contains(tip, l, r, (#[trigger] res@[i]).0),
        decreases dy + 1 - k,
    {
        proof {
            lemma_products_small();
        }
        let lnum: i64 = mul_i64(xl0, dy) + mul_i64(k, xl1 - xl0);
        let rnum: i64 = mul_i64(xr0, dy) + mul_i64(k, xr1 - xr0);
        let lc: i64 = round_div_i64(lnum, dy);
        let rc: i64 = round_div_i64(rnum, dy);
        let y: i64 = ytop + k;
        proof {
            lemma_span_cols(c, k as int);
            assert(lc as int == span_left_col(c, k as int));
            assert(rc as int == span_right_col(c, k as int));
        }
        let mut x: i64 = lc;
        while x <= rc
            invariant
                lc <= x <= rc + 1,
                res@ == span_rows(c, k - 1) + span_row(c, k as int).take(x - lc),
                forall|i: int|
                    0 <= i < res@.len() ==> span_box_contains(tip, l, r, (#[trigger] res@[i]).0),
            decreases rc + 1 - x,
        {
            let p = Vector2i { x, y };
            let w = barycentric_coords(&p, &tip, &l, &r);
            let m = interpolate_meta(&w, mt, ml, mr);
            proof {
                let kk = k as int;
                let row = span_row(c, kk);
                assert(row[x - lc] == (p, m));
                assert(row.take(x + 1 - lc) =~= row.take(x - lc).push(row[x - lc]));
                assert(span_box_contains(tip, l, r, p));
            }
            res.push((p, m));
            x = x + 1;
        }
        proof {
            let kk = k as int;
            assert(span_row(c, kk).take(x - lc) =~= span_row(c, kk));
            assert(res@ == span_rows(c, kk));
        }
        k = k + 1;
    }
    res
}

/// A flat span whose base endpoints are not yet ordered: the corner
/// with the smaller x becomes the left edge (on a tie, the second
/// listed corner becomes the left edge).
pub open spec fn spec_tip_up_unsorted(
    u: Vector2i,
    l0: Vector2i,
    l1: Vector2i,
    mu: VertexMetadata,
    m0: VertexMetadata,
    m1: VertexMetadata,
) -> Seq<(Vector2i, VertexMetadata)> {
    if l0.x < l1.x {
        spec_scan_span(u, l0, l1, mu, m0, m1)
    } else {
        spec_scan_span(u, l1, l0, mu, m1, m0)
    }
}

/// Like `spec_tip_up_unsorted`, for a span whose tip lies below its base.
pub open spec fn spec_tip_down_unsorted(
    d: Vector2i,
    l0: Vector2i,
    l1: Vector2i,
    md: VertexMetadata,
    m0: VertexMetadata,
    m1: VertexMetadata,
) -> Seq<(Vector2i, VertexMetadata)> {
    if l0.x < l1.x {
        spec_scan_span(d, l0, l1, md, m0, m1)
    } else {
        spec_scan_span(d, l1, l0, md, m1, m0)
    }
}

/// Rasterizes a flat-bottom span: tip `u` above, base from `l` to `r`.
fn rasterize_tip_up(
    u: Vector2i,
    l: Vector2i,
    r: Vector2i,
    mu: &VertexMetadata,
    ml: &VertexMetadata,
    mr: &VertexMetadata,
) -> (res: Vec<(Vector2i, VertexMetadata)>)
    requires
        u.y < l.y,
        l.y == r.y,
        l.x <= r.x,
        pixel_bounded(u, MAX_PIXEL as int),
        pixel_bounded(l, MAX_PIXEL as int),
        pixel_bounded(r, MAX_PIXEL as int),
        meta_bounded(*mu, MAX_ATTR as int),
        meta_bounded(*ml, MAX_ATTR as int),
        meta_bounded(*mr, MAX_ATTR as int),
    ensures
        res@ == spec_scan_span(u, l, r, *mu, *ml, *mr),
        forall|i: int| 0 <= i < res@.len() ==> span_box_contains(u, l, r, (#[trigger] res@[i]).0),
{
    scan_span(u, l, r, mu, ml, mr)
}

/// Rasterizes a flat-top span: tip `d` below, base from `l` to `r`.
fn rasterize_tip_down(
    d: Vector2i,
    l: Vector2i,
    r: Vector2i,
    md: &VertexMetadata,
    ml: &VertexMetadata,
    mr: &VertexMetadata,
) -> (res: Vec<(Vector2i, VertexMetadata)>)
    requires
        d.y > l.y,
        l.y == r.y,
        l.x <= r.x,
        pixel_bounded(d, MAX_PIXEL as int),
        pixel_bounded(l, MAX_PIXEL as int),
        pixel_bounded(r, MAX_PIXEL as int),
        meta_bounded(*md, MAX_ATTR as int),
        meta_bounded(*ml, MAX_ATTR as int),
        meta_bounded(*mr, MAX_ATTR as int),
    ensures
        res@ == spec_scan_span(d, l, r, *md, *ml, *mr),
        forall|i: int| 0 <= i < res@.len() ==> span_box_contains(d, l, r, (#[trigger] res@[i]).0),
{
    scan_span(d, l, r, md, ml, mr)
}

/// Orders the base corners of a flat-bottom span by x, then rasterizes it.
fn rasterize_tip_up_unsorted(
    u: Vector2i,
    lr0: Vector2i,
    lr1: Vector2i,
    mu: &VertexMetadata,
    m0: &VertexMetadata,
    m1: &VertexMetadata,
) -> (res: Vec<(Vector2i, VertexMetadata)>)
    requires
        u.y < lr0.y,
        lr0.y == lr1.y,
        pixel_bounded(u, MAX_PIXEL as int),
        pixel_bounded(lr0, MAX_PIXEL as int),
        pixel_bounded(lr1, MAX_PIXEL as int),
        meta_bounded(*mu, MAX_ATTR as int),
        meta_bounded(*m0, MAX_ATTR as int),
        meta_bounded(*m1, MAX_ATTR as int),
    ensures
        res@ == spec_tip_up_unsorted(u, lr0, lr1, *mu, *m0, *m1),
        forall|i: int|
            0 <= i < res@.len() ==> span_box_contains(u, lr0, lr1, (#[trigger] res@[i]).0),
{
    if lr0.x < lr1.x {
        rasterize_tip_up(u, lr0, lr1, mu, m0, m1)
    } else {
        rasterize_tip_up(u, lr1, lr0, mu, m1, m0)
    }
}

/// Orders the base corners of a flat-top span by x, then rasterizes it.
fn rasterize_tip_down_unsorted(
    d: Vector2i,
    lr0: Vector2i,
    lr1: Vector2i,
    md: &VertexMetadata,
    m0: &VertexMetadata,
    m1: &VertexMetadata,
) -> (res: Vec<(Vector2i, VertexMetadata)>)
    requires
        d.y > lr0.y,
        lr0.y == lr1.y,
        pixel_bounded(d, MAX_PIXEL as int),
        pixel_bounded(lr0, MAX_PIXEL as int),
        pixel_bounded(lr1, MAX_PIXEL as int),
        meta_bounded(*md, MAX_ATTR as int),
        meta_bounded(*m0, MAX_ATTR as int),
        meta_bounded(*m1, MAX_ATTR as int),
    ensures
        res@ == spec_tip_down_unsorted(d, lr0, lr1, *md, *m0, *m1),
        forall|i: int|
            0 <= i < res@.len() ==> span_box_contains(d, lr0, lr1, (#[trigger] res@[i]).0),
{
    if lr0.x < lr1.x {
        rasterize_tip_down(d, lr0, lr1, md, m0, m1)
    } else {
        rasterize_tip_down(d, lr1, lr0, md, m1, m0)
    }
}

/// A vertex position rounded to its nearest integer pixel.
pub open spec fn spec_round_vertex(v: Vector2) -> Vector2i {
    Vector2i {
        x: rounded_ratio(v.x as int, SCALE as int) as i64,
        y: rounded_ratio(v.y as int, SCALE as int) as i64,
    }
}

/// Rounds a fixed-point vertex position to the nearest integer pixel.
pub fn round_vertex(v: &Vector2) -> (p: Vector2i)
    requires
        vec2_bounded(*v, MAX_COORD as int),
    ensures
        p == spec_round_vertex(*v),
        pixel_bounded(p, MAX_PIXEL as int),
{
    proof {
        lemma_rounded_ratio_bounds(v.x as int, SCALE as int, -(MAX_PIXEL as int), MAX_PIXEL as int);
        lemma_rounded_ratio_bounds(v.y as int, SCALE as int, -(MAX_PIXEL as int), MAX_PIXEL as int);
    }
    let x128: i128 = round_div_i128(v.x, SCALE);
    let y128: i128 = round_div_i128(v.y, SCALE);
    Vector2i { x: x128 as i64, y: y128 as i64 }
}

/// The triangle's three vertices rounded to pixels and paired with
/// their attributes, stably sorted by ascending pixel row: ties keep
/// the original vertex order.
pub open spec fn spec_sorted(t: Triangle2) -> (
    (Vector2i, VertexMetadata),
    (Vector2i, VertexMetadata),
    (Vector2i, VertexMetadata),
) {
    let q0 = (spec_round_vertex(t.v[0]), t.meta[0]);
    let q1 = (spec_round_vertex(t.v[1]), t.meta[1]);
    let q2 = (spec_round_vertex(t.v[2]), t.meta[2]);
    let (a0, b0) = if q1.0.y < q0.0.y { (q1, q0) } else { (q0, q1) };
    let (b1, c0) = if q2.0.y < b0.0.y { (q2, b0) } else { (b0, q2) };
    let (a1, b2) = if b1.0.y < a0.0.y { (b1, a0) } else { (a0, b1) };
    (a1, b2, c0)
}

/// The sorted vertices come out in ascending pixel-row order (ties
/// keep the original vertex order, by construction of `spec_sorted`).
pub proof fn lemma_sorted_rows_ascending(t: Triangle2)
    ensures
        spec_sorted(t).0.0.y <= spec_sorted(t).1.0.y,
        spec_sorted(t).1.0.y <= spec_sorted(t).2.0.y,
{
}

/// All fragments of one triangle. The vertices are rounded to pixels
/// and sorted by row; a zero-height triangle yields no fragments; a
/// triangle with a horizontal edge is one flat span; any other
/// triangle is split at the middle vertex's row into a flat-bottom
/// span and a flat-top span, upper span's fragments first. The split
/// point's attributes are interpolated between the lowest and highest
/// vertex at barycentric weights `(1 - t, 0, t)`, where `t` is the
/// middle row's position between the two.
pub open spec fn spec_rasterize(t: Triangle2) -> Seq<(Vector2i, VertexMetadata)> {
    let s = spec_sorted(t);
    let a = s.0;
    let b = s.1;
    let c = s.2;
    if a.0.y == c.0.y {
        Seq::empty()
    } else if a.0.y == b.0.y {
        spec_tip_down_unsorted(c.0, a.0, b.0, c.1, a.1, b.1)
    } else if b.0.y == c.0.y {
        spec_tip_up_unsorted(a.0, b.0, c.0, a.1, b.1, c.1)
    } else {
        let tn = b.0.y - a.0.y;
        let td = c.0.y - a.0.y;
        let mid = spec_lerp2i(a.0, c.0, tn, td);
        let mm = spec_interpolate(td - tn, 0, tn, td, a.1, b.1, c.1);
        spec_tip_up_unsorted(a.0, b.0, mid, a.1, b.1, mm) + spec_tip_down_unsorted(
            c.0,
            b.0,
            mid,
            c.1,
            b.1,
            mm,
        )
    }
}

/// `p` lies in the axis-aligned bounding box of the triangle's
/// rounded vertices.
pub open spec fn rasterize_bbox_contains(t: Triangle2, p: Vector2i) -> bool {
    let r0 = spec_round_vertex(t.v[0]);
    let r1 = spec_round_vertex(t.v[1]);
    let r2 = spec_round_vertex(t.v[2]);
    &&& min3(r0.x as int, r1.x as int, r2.x as int) <= p.x as int
    &&& p.x as int <= max3(r0.x as int, r1.x as int, r2.x as int)
    &&& min3(r0.y as int, r1.y as int, r2.y as int) <= p.y as int
    &&& p.y as int <= max3(r0.y as int, r1.y as int, r2.y as int)
}

/// Interpolation at nonnegative weights that sum to the denominator
/// (a convex combination) keeps every attribute component within the
/// bound that holds of all three inputs.
proof fn lemma_blend_convex(n1: int, n2: int, n3: int, den: int, a1: int, a2: int, a3: int, b: int)
    requires
        0 <= n1,
        0 <= n2,
        0 <= n3,
        n1 + n2 + n3 == den,
        1 <= den,
        0 <= b,
        -b <= a1 <= b,
        -b <= a2 <= b,
        -b <= a3 <= b,
    ensures
        -b <= blend_s(n1, n2, n3, den, a1, a2, a3) <= b,
{
    assert((-b) * den <= n1 * a1 + n2 * a2 + n3 * a3 <= b * den) by (nonlinear_arith)
        requires
            0 <= n1,
            0 <= n2,
            0 <= n3,
            n1 + n2 + n3 == den,
            -b <= a1 <= b,
            -b <= a2 <= b,
            -b <= a3 <= b,
    ;
    lemma_rounded_ratio_bounds(n1 * a1 + n2 * a2 + n3 * a3, den, -b, b);
}

/// A convex interpolation of three bounded attribute records is
/// bounded by the same bound.
proof fn lemma_interpolate_convex_bounded(
    n1: int,
    n2: int,
    n3: int,
    den: int,
    m1: VertexMetadata,
    m2: VertexMetadata,
    m3: VertexMetadata,
    b: int,
)
    requires
        0 <= n1,
        0 <= n2,
        0 <= n3,
        n1 + n2 + n3 == den,
        1 <= den,
        0 <= b <= 0x1000_0000_0000_0000,
        meta_bounded(m1, b),
        meta_bounded(m2, b),
        meta_bounded(m3, b),
    ensures
        meta_bounded(spec_interpolate(n1, n2, n3, den, m1, m2, m3), b),
{
    assert forall|a1: int, a2: int, a3: int|
        -b <= a1 <= b && -b <= a2 <= b && -b <= a3 <= b implies -b <= #[trigger] blend_s(
        n1,
        n2,
        n3,
        den,
        a1,
        a2,
        a3,
    ) <= b by {
        lemma_blend_convex(n1, n2, n3, den, a1, a2, a3, b);
    }
}

/// Rounds the triangle's vertices to pixels, sorts them by row, and
/// scan-converts the triangle into its fragments: pixel coordinates
/// paired with attributes interpolated at that pixel. A zero-height
/// triangle (all three rounded rows equal) yields no fragments, and
/// every fragment lies in the bounding box of the rounded vertices.
#[verifier::rlimit(60)]
pub fn rasterize(triangle: &Triangle2) -> (res: Vec<(Vector2i, VertexMetadata)>)
    requires
        triangle.wf(),
    ensures
        res@ == spec_rasterize(*triangle),
        forall|i: int|
            0 <= i < res@.len() ==> rasterize_bbox_contains(*triangle, (#[trigger] res@[i]).0),
        (spec_round_vertex(triangle.v[0]).y == spec_round_vertex(triangle.v[1]).y
            && spec_round_vertex(triangle.v[1]).y == spec_round_vertex(triangle.v[2]).y)
            ==> res@ =~= Seq::<(Vector2i, VertexMetadata)>::empty(),
{
    let q0: (Vector2i, VertexMetadata) = (round_vertex(&triangle.v[0]), triangle.meta[0]);
    let q1: (Vector2i, VertexMetadata) = (round_vertex(&triangle.v[1]), triangle.meta[1]);
    let q2: (Vector2i, VertexMetadata) = (round_vertex(&triangle.v[2]), triangle.meta[2]);
    let (a0, b0) = if q1.0.y < q0.0.y { (q1, q0) } else { (q0, q1) };
    let (b1, c0) = if q2.0.y < b0.0.y { (q2, b0) } else { (b0, q2) };
    let (a1, b2) = if b1.0.y < a0.0.y { (b1, a0) } else { (a0, b1) };
    let (pa, ma) = a1;
    let (pb, mb) = b2;
    let (pc, mc) = c0;
    proof {
        assert((pa, ma) == spec_sorted(*triangle).0);
        assert((pb, mb) == spec_sorted(*triangle).1);
        assert((pc, mc) == spec_sorted(*triangle).2);
        assert(pa.y <= pb.y <= pc.y);
    }
    if pa.y == pc.y {
        Vec::new()
    } else if pa.y == pb.y {
        rasterize_tip_down_unsorted(pc, pa, pb, &mc, &ma, &mb)
    } else if pb.y == pc.y {
        rasterize_tip_up_unsorted(pa, pb, pc, &ma, &mb, &mc)
    } else {
        let tn: i64 = pb.y - pa.y;
        let td: i64 = pc.y - pa.y;
        let mid = vector2i_lerp(&pa, &pc, tn, td);
        proof {
            assert(pa.y * td + tn * (pc.y - pa.y) == (pa.y + tn) * td) by (nonlinear_arith)
                requires
                    td == pc.y - pa.y,
            ;
            lemma_rounded_ratio_exact(pa.y + tn, td as int);
            assert(mid.y == pb.y);
            lemma_interpolate_convex_bounded(
                td - tn,
                0,
                tn as int,
                td as int,
                ma,
                mb,
                mc,
                MAX_ATTR as int,
            );
        }
        let wmid = BaryWeights { n1: td - tn, n2: 0, n3: tn, den: td };
        let mmid = interpolate_meta(&wmid, &ma, &mb, &mc);
        let mut r1 = rasterize_tip_up_unsorted(pa, pb, mid, &ma, &mb, &mmid);
        let mut r2 = rasterize_tip_down_unsorted(pc, pb, mid, &mc, &mb, &mmid);
        r1.append(&mut r2);
        r1
    }
}

/// The three barycentric weight numerators of any point with respect
/// to any triangle sum to exactly the common denominator: the weights
/// sum to exactly 1.
pub proof fn lemma_barycentric_weights_sum_to_one(
    px: int,
    py: int,
    v1: Vector2i,
    v2: Vector2i,
    v3: Vector2i,
)
    ensures
        bary_n1(px, py, v1, v2, v3) + bary_n2(px, py, v1, v2, v3) + bary_n3(px, py, v1, v2, v3)
            == bary_den(v1, v2, v3),
{
}

/// At each vertex of a triangle the barycentric weights are 1 for
/// that vertex and 0 for the other two: the weight numerator of the
/// vertex equals the denominator and the other two numerators vanish.
pub proof fn lemma_barycentric_at_vertices(v1: Vector2i, v2: Vector2i, v3: Vector2i)
    ensures
        bary_n1(v1.x as int, v1.y as int, v1, v2, v3) == bary_den(v1, v2, v3),
        bary_n2(v1.x as int, v1.y as int, v1, v2, v3) == 0,
        bary_n3(v1.x as int, v1.y as int, v1, v2, v3) == 0,
        bary_n1(v2.x as int, v2.y as int, v1, v2, v3) == 0,
        bary_n2(v2.x as int, v2.y as int, v1, v2, v3) == bary_den(v1, v2, v3),
        bary_n3(v2.x as int, v2.y as int, v1, v2, v3) == 0,
        bary_n1(v3.x as int, v3.y as int, v1, v2, v3) == 0,
        bary_n2(v3.x as int, v3.y as int, v1, v2, v3) == 0,
        bary_n3(v3.x as int, v3.y as int, v1, v2, v3) == bary_den(v1, v2, v3),
{
    let x1 = v1.x as int;
    let y1 = v1.y as int;
    let x2 = v2.x as int;
    let y2 = v2.y as int;
    let x3 = v3.x as int;
    let y3 = v3.y as int;
    assert((y3 - y1) * (x1 - x3) + (x1 - x3) * (y1 - y3) == 0) by (nonlinear_arith);
    assert((y2 - y3) * (x2 - x3) + (x3 - x2) * (y2 - y3) == 0) by (nonlinear_arith);
    assert((y3 - y1) * (x2 - x3) + (x1 - x3) * (y2 - y3) == (y2 - y3) * (x1 - x3) + (x3 - x2) * (y1
        - y3)) by (nonlinear_arith);
}

/// What interpolation yields when the full weight sits on one vertex:
/// each attribute that all three vertices supply is taken from
/// `pick`, each other attribute is absent.
pub open spec fn spec_attrs_from(
    pick: VertexMetadata,
    m1: VertexMetadata,
    m2: VertexMetadata,
    m3: VertexMetadata,
) -> VertexMetadata {
    VertexMetadata {
        world_pos: if m1.world_pos is Some && m2.world_pos is Some && m3.world_pos is Some {
            pick.world_pos
        } else {
            None
        },
        texture_coord: if m1.texture_coord is Some && m2.texture_coord is Some
            && m3.texture_coord is Some {
            pick.texture_coord
        } else {
            None
        },
        normal: if m1.normal is Some && m2.normal is Some && m3.normal is Some {
            pick.normal
        } else {
            None
        },
        color: if m1.color is Some && m2.color is Some && m3.color is Some {
            pick.color
        } else {
            None
        },
    }
}

/// Interpolating with the full weight on one corner returns that
/// corner's component exactly.
proof fn lemma_blend_at_corner(den: int, a1: int, a2: int, a3: int)
    requires
        den >= 1,
    ensures
        blend_s(den, 0, 0, den, a1, a2, a3) == a1,
        blend_s(0, den, 0, den, a1, a2, a3) == a2,
        blend_s(0, 0, den, den, a1, a2, a3) == a3,
{
    assert(den * a1 + 0 * a2 + 0 * a3 == a1 * den) by (nonlinear_arith);
    assert(0 * a1 + den * a2 + 0 * a3 == a2 * den) by (nonlinear_arith);
    assert(0 * a1 + 0 * a2 + den * a3 == a3 * den) by (nonlinear_arith);
    lemma_rounded_ratio_exact(a1, den);
    lemma_rounded_ratio_exact(a2, den);
    lemma_rounded_ratio_exact(a3, den);
}

/// Interpolation at a vertex of a non-degenerate triangle reproduces
/// that vertex's own attribute values exactly: for each vertex, the
/// attributes interpolated at the barycentric weights of that vertex's
/// own position are the vertex's attributes (for every attribute all
/// three vertices supply; any other attribute is absent).
pub proof fn lemma_interpolation_reproduces_vertex(
    v1: Vector2i,
    v2: Vector2i,
    v3: Vector2i,
    m1: VertexMetadata,
    m2: VertexMetadata,
    m3: VertexMetadata,
)
    requires
        bary_den(v1, v2, v3) != 0,
    ensures
        spec_interpolate(
            bary_n1(v1.x as int, v1.y as int, v1, v2, v3),
            bary_n2(v1.x as int, v1.y as int, v1, v2, v3),
            bary_n3(v1.x as int, v1.y as int, v1, v2, v3),
            bary_den(v1, v2, v3),
            m1,
            m2,
            m3,
        ) == spec_attrs_from(m1, m1, m2, m3),
        spec_interpolate(
            bary_n1(v2.x as int, v2.y as int, v1, v2, v3),
            bary_n2(v2.x as int, v2.y as int, v1, v2, v3),
            bary_n3(v2.x as int, v2.y as int, v1, v2, v3),
            bary_den(v1, v2, v3),
            m1,
            m2,
            m3,
        ) == spec_attrs_from(m2, m1, m2, m3),
        spec_interpolate(
            bary_n1(v3.x as int, v3.y as int, v1, v2, v3),
            bary_n2(v3.x as int, v3.y as int, v1, v2, v3),
            bary_n3(v3.x as int, v3.y as int, v1, v2, v3),
            bary_den(v1, v2, v3),
            m1,
            m2,
            m3,
        ) == spec_attrs_from(m3, m1, m2, m3),
{
    lemma_barycentric_at_vertices(v1, v2, v3);
    let den = bary_den(v1, v2, v3);
    let pd = if den < 0 { -den } else { den };
    assert forall|a1: int, a2: int, a3: int| true implies #[trigger] blend_s(
        pd,
        0,
        0,
        pd,
        a1,
        a2,
        a3,
    ) == a1 && #[trigger] blend_s(0, pd, 0, pd, a1, a2, a3) == a2 && #[trigger] blend_s(
        0,
        0,
        pd,
        pd,
        a1,
        a2,
        a3,
    ) == a3 by {
        lemma_blend_at_corner(pd, a1, a2, a3);
    }
}

/// Rasterization is deterministic: it is a function of the triangle
/// alone, so two fragment lists that both satisfy `rasterize`'s
/// contract for the same triangle are identical, element for element
/// and in the same order.
pub proof fn lemma_rasterize_deterministic(
    t: Triangle2,
    r1: Seq<(Vector2i, VertexMetadata)>,
    r2: Seq<(Vector2i, VertexMetadata)>,
)
    requires
        r1 == spec_rasterize(t),
        r2 == spec_rasterize(t),
    ensures
        r1 == r2,
{
}

} // verus!
