//! The origin-containment decision: a uniform signed-cross-product half-plane
//! test over exact integer arithmetic, with no division and no special case
//! for vertical or horizontal edges.

use crate::geometry::triangle_in_range;
use crate::geometry::vertex_in_range;
use crate::geometry::Triangle;
use crate::geometry::Vertex;
use vstd::prelude::*;

verus! {

/// The 2-D cross product of the vectors from `p` to `q` and from `p` to the
/// origin: `(q.x - p.x) * (0 - p.y) - (q.y - p.y) * (0 - p.x)`, which
/// simplifies to `p.x * q.y - q.x * p.y`. Its sign says on which side of the
/// directed line `p -> q` the origin lies; zero means on the line.
pub open spec fn cross_origin(p: Vertex, q: Vertex) -> int {
    p.x * q.y - q.x * p.y
}

/// Twice the signed area of the triangle: the cross product of the edge
/// vectors `b - a` and `c - a`. Zero exactly when the three vertices are
/// collinear (duplicate vertices included).
pub open spec fn triangle_area2(t: Triangle) -> int {
    (t.vertex_b.x - t.vertex_a.x) * (t.vertex_c.y - t.vertex_a.y) - (t.vertex_c.x - t.vertex_a.x)
        * (t.vertex_b.y - t.vertex_a.y)
}

/// Degenerate: zero enclosed area, i.e. collinear or not all distinct.
pub open spec fn is_degenerate(t: Triangle) -> bool {
    triangle_area2(t) == 0
}

/// The origin lies in the closed triangle (interior or boundary): the three
/// edge cross products, taken in the one winding order a -> b -> c, are all
/// non-negative or all non-positive.
pub open spec fn origin_in_triangle(t: Triangle) -> bool {
    let ab = cross_origin(t.vertex_a, t.vertex_b);
    let bc = cross_origin(t.vertex_b, t.vertex_c);
    let ca = cross_origin(t.vertex_c, t.vertex_a);
    (ab >= 0 && bc >= 0 && ca >= 0) || (ab <= 0 && bc <= 0 && ca <= 0)
}

/// A record that cannot be classified: a coordinate off the bounded plane, or
/// a degenerate (zero-area) triangle.
#[derive(Clone, Copy, PartialEq, Eq, Structural, Debug)]
pub enum ClassifyError {
    OutOfRange,
    Degenerate,
}

/// The classification outcome owed for each triangle: an out-of-range
/// coordinate is reported first, then degeneracy, and only a well-formed
/// triangle is answered with its containment verdict.
pub open spec fn spec_classify(t: Triangle) -> Result<bool, ClassifyError> {
    if !triangle_in_range(t) {
        Err(ClassifyError::OutOfRange)
    } else if is_degenerate(t) {
        Err(ClassifyError::Degenerate)
    } else {
        Ok(origin_in_triangle(t))
    }
}

/// Twice the signed area equals the sum of the three edge cross products.
pub proof fn lemma_area_is_cross_sum(t: Triangle)
    ensures
        triangle_area2(t) == cross_origin(t.vertex_a, t.vertex_b) + cross_origin(
            t.vertex_b,
            t.vertex_c,
        ) + cross_origin(t.vertex_c, t.vertex_a),
{
    let a = t.vertex_a;
    let b = t.vertex_b;
    let c = t.vertex_c;
    assert((b.x - a.x) * (c.y - a.y) - (c.x - a.x) * (b.y - a.y) == (a.x * b.y - b.x * a.y) + (b.x
        * c.y - c.x * b.y) + (c.x * a.y - a.x * c.y)) by (nonlinear_arith);
}

/// The two triangles hold the same three vertices, in some order: `t2`'s
/// labelling is one of the six permutations of `t1`'s.
pub open spec fn same_vertex_set(t1: Triangle, t2: Triangle) -> bool {
    let a = t1.vertex_a;
    let b = t1.vertex_b;
    let c = t1.vertex_c;
    ||| (t2.vertex_a == a && t2.vertex_b == b && t2.vertex_c == c)
    ||| (t2.vertex_a == a && t2.vertex_b == c && t2.vertex_c == b)
    ||| (t2.vertex_a == b && t2.vertex_b == a && t2.vertex_c == c)
    ||| (t2.vertex_a == b && t2.vertex_b == c && t2.vertex_c == a)
    ||| (t2.vertex_a == c && t2.vertex_b == a && t2.vertex_c == b)
    ||| (t2.vertex_a == c && t2.vertex_b == b && t2.vertex_c == a)
}

/// Permutation invariance: relabelling the three vertices in any of the six
/// orders changes neither the containment verdict, nor degeneracy, nor the
/// classification outcome. Reversing the winding order flips all three cross
/// products at once, which preserves the all-same-sign test.
pub proof fn lemma_permutation_invariant(t1: Triangle, t2: Triangle)
    requires
        same_vertex_set(t1, t2),
    ensures
        origin_in_triangle(t2) == origin_in_triangle(t1),
        is_degenerate(t2) == is_degenerate(t1),
        triangle_in_range(t2) == triangle_in_range(t1),
        spec_classify(t2) == spec_classify(t1),
{
    lemma_area_is_cross_sum(t1);
    lemma_area_is_cross_sum(t2);
}

/// A triangle with a vertex exactly at the origin contains the origin: both
/// edge cross products at that vertex are zero, so the all-same-sign test
/// holds whatever the sign of the third. Where such a triangle is in range
/// and non-degenerate, its classification is `Ok(true)`.
pub proof fn lemma_vertex_at_origin(t: Triangle)
    requires
        (t.vertex_a.x == 0 && t.vertex_a.y == 0) || (t.vertex_b.x == 0 && t.vertex_b.y == 0) || (
        t.vertex_c.x == 0 && t.vertex_c.y == 0),
    ensures
        origin_in_triangle(t),
        triangle_in_range(t) && !is_degenerate(t) ==> spec_classify(t) == Ok::<
            bool,
            ClassifyError,
        >(true),
{
}

/// The two algebraic identities behind the quadrant argument: weighting the
/// three edge cross products by the x (or y) coordinates of the opposite
/// vertices always sums to zero.
proof fn lemma_weighted_cross_sum(a: Vertex, b: Vertex, c: Vertex)
    ensures
        c.x * cross_origin(a, b) + a.x * cross_origin(b, c) + b.x * cross_origin(c, a) == 0,
        c.y * cross_origin(a, b) + a.y * cross_origin(b, c) + b.y * cross_origin(c, a) == 0,
{
    assert(c.x * (a.x * b.y - b.x * a.y) + a.x * (b.x * c.y - c.x * b.y) + b.x * (c.x * a.y - a.x
        * c.y) == 0) by (nonlinear_arith);
    assert(c.y * (a.x * b.y - b.x * a.y) + a.y * (b.x * c.y - c.x * b.y) + b.y * (c.x * a.y - a.x
        * c.y) == 0) by (nonlinear_arith);
}

/// If three same-signed values have a zero weighted sum with weights that are
/// all strictly positive or all strictly negative, every value is zero.
proof fn lemma_same_sign_weighted_zero(w1: int, w2: int, w3: int, c1: int, c2: int, c3: int) by (nonlinear_arith)
    requires
        (w1 > 0 && w2 > 0 && w3 > 0) || (w1 < 0 && w2 < 0 && w3 < 0),
        w1 * c1 + w2 * c2 + w3 * c3 == 0,
        (c1 >= 0 && c2 >= 0 && c3 >= 0) || (c1 <= 0 && c2 <= 0 && c3 <= 0),
    ensures
        c1 == 0 && c2 == 0 && c3 == 0,
{
}

/// A non-degenerate triangle that lies entirely on one strict side of an axis
/// (all x strictly positive, all x strictly negative, all y strictly positive
/// or all y strictly negative) does not contain the origin; in range, its
/// classification is `Ok(false)`.
pub proof fn lemma_quadrant_excluded(t: Triangle)
    requires
        !is_degenerate(t),
        (t.vertex_a.x > 0 && t.vertex_b.x > 0 && t.vertex_c.x > 0) || (t.vertex_a.x < 0
            && t.vertex_b.x < 0 && t.vertex_c.x < 0) || (t.vertex_a.y > 0 && t.vertex_b.y > 0
            && t.vertex_c.y > 0) || (t.vertex_a.y < 0 && t.vertex_b.y < 0 && t.vertex_c.y < 0),
    ensures
        !origin_in_triangle(t),
        triangle_in_range(t) ==> spec_classify(t) == Ok::<bool, ClassifyError>(false),
{
    let a = t.vertex_a;
    let b = t.vertex_b;
    let c = t.vertex_c;
    let ab = cross_origin(a, b);
    let bc = cross_origin(b, c);
    let ca = cross_origin(c, a);
    lemma_weighted_cross_sum(a, b, c);
    lemma_area_is_cross_sum(t);
    if origin_in_triangle(t) {
        if (a.x > 0 && b.x > 0 && c.x > 0) || (a.x < 0 && b.x < 0 && c.x < 0) {
            lemma_same_sign_weighted_zero(c.x as int, a.x as int, b.x as int, ab, bc, ca);
        } else {
            lemma_same_sign_weighted_zero(c.y as int, a.y as int, b.y as int, ab, bc, ca);
        }
        assert(triangle_area2(t) == 0);
    }
}

/// The origin lies on the closed segment from `p` to `q`: it lies on the
/// infinite line through them (zero cross product) and within the segment's
/// bounding extent on both axes.
pub open spec fn origin_on_segment(p: Vertex, q: Vertex) -> bool {
    &&& cross_origin(p, q) == 0
    &&& ((p.x <= 0 && 0 <= q.x) || (q.x <= 0 && 0 <= p.x))
    &&& ((p.y <= 0 && 0 <= q.y) || (q.y <= 0 && 0 <= p.y))
}

/// Two non-positive values whose product is a perfect square `w * w` sum to
/// no more than `2 * w`: the arithmetic-geometric-mean bound, stated over
/// integers.
proof fn lemma_sum_with_geometric_mean(pq: int, rs: int, w: int) by (nonlinear_arith)
    requires
        pq <= 0,
        rs <= 0,
        w * w == pq * rs,
    ensures
        pq + rs - 2 * w <= 0,
{
}

/// A product is non-negative only when its factors are same-signed.
proof fn lemma_product_nonneg_same_sign(u: int, v: int) by (nonlinear_arith)
    requires
        u * v >= 0,
    ensures
        (u >= 0 && v >= 0) || (u <= 0 && v <= 0),
{
}

/// The heart of the boundary case: when the origin lies on the segment from
/// `(px, py)` to `(qx, qy)`, the linear form `ry * x - rx * y` (which
/// vanishes on the line from the origin through `(rx, ry)`) takes values of
/// opposite sign at the two endpoints.
proof fn lemma_segment_sign(px: int, py: int, qx: int, qy: int, rx: int, ry: int)
    requires
        px * qy == qx * py,
        px * qx <= 0,
        py * qy <= 0,
    ensures
        (ry * px - rx * py) * (ry * qx - rx * qy) <= 0,
{
    assert((ry * px) * (rx * qy) == (rx * py) * (ry * qx)) by (nonlinear_arith)
        requires
            px * qy == qx * py,
    ;
    assert((ry * px) * (ry * qx) <= 0) by (nonlinear_arith)
        requires
            px * qx <= 0,
    ;
    assert((rx * py) * (rx * qy) <= 0) by (nonlinear_arith)
        requires
            py * qy <= 0,
    ;
    assert(((ry * px) * (rx * qy)) * ((ry * px) * (rx * qy)) == ((ry * px) * (ry * qx)) * ((rx
        * py) * (rx * qy))) by (nonlinear_arith)
        requires
            (ry * px) * (rx * qy) == (rx * py) * (ry * qx),
    ;
    lemma_sum_with_geometric_mean(
        (ry * px) * (ry * qx),
        (rx * py) * (rx * qy),
        (ry * px) * (rx * qy),
    );
    assert((ry * px - rx * py) * (ry * qx - rx * qy) == (ry * px) * (ry * qx) - (ry * px) * (rx
        * qy) - (rx * py) * (ry * qx) + (rx * py) * (rx * qy)) by (nonlinear_arith);
}

/// When the origin lies on the segment from `p` to `q`, the cross products of
/// the two remaining edges (through the third vertex `r`) are same-signed.
proof fn lemma_edge_through_origin_same_side(p: Vertex, q: Vertex, r: Vertex)
    requires
        origin_on_segment(p, q),
    ensures
        cross_origin(q, r) * cross_origin(r, p) >= 0,
{
    assert(p.x * q.x <= 0 && p.y * q.y <= 0) by (nonlinear_arith)
        requires
            (p.x <= 0 && 0 <= q.x) || (q.x <= 0 && 0 <= p.x),
            (p.y <= 0 && 0 <= q.y) || (q.y <= 0 && 0 <= p.y),
    ;
    lemma_segment_sign(p.x as int, p.y as int, q.x as int, q.y as int, r.x as int, r.y as int);
    assert(cross_origin(q, r) * cross_origin(r, p) == -((r.y * p.x - r.x * p.y) * (r.y * q.x - r.x
        * q.y))) by (nonlinear_arith)
        requires
            cross_origin(q, r) == q.x * r.y - r.x * q.y,
            cross_origin(r, p) == r.x * p.y - p.x * r.y,
    ;
}

/// Boundary containment: a triangle one of whose edges passes through the
/// origin, with the origin inside that edge's extent, contains the origin.
/// Where such a triangle is in range and non-degenerate, its classification
/// is `Ok(true)`.
pub proof fn lemma_origin_on_edge_contained(t: Triangle)
    requires
        origin_on_segment(t.vertex_a, t.vertex_b) || origin_on_segment(t.vertex_b, t.vertex_c)
            || origin_on_segment(t.vertex_c, t.vertex_a),
    ensures
        origin_in_triangle(t),
        triangle_in_range(t) && !is_degenerate(t) ==> spec_classify(t) == Ok::<
            bool,
            ClassifyError,
        >(true),
{
    let a = t.vertex_a;
    let b = t.vertex_b;
    let c = t.vertex_c;
    if origin_on_segment(a, b) {
        lemma_edge_through_origin_same_side(a, b, c);
        lemma_product_nonneg_same_sign(cross_origin(b, c), cross_origin(c, a));
    } else if origin_on_segment(b, c) {
        lemma_edge_through_origin_same_side(b, c, a);
        lemma_product_nonneg_same_sign(cross_origin(c, a), cross_origin(a, b));
    } else {
        lemma_edge_through_origin_same_side(c, a, b);
        lemma_product_nonneg_same_sign(cross_origin(a, b), cross_origin(b, c));
    }
}

/// Computes the cross product `cross_origin(p, q)` exactly, in 64-bit
/// arithmetic that cannot overflow on the bounded plane.
fn edge_cross(p: &Vertex, q: &Vertex) -> (c: i64)
    requires
        vertex_in_range(*p),
        vertex_in_range(*q),
    ensures
        c == cross_origin(*p, *q),
        -2000000 <= c <= 2000000,
{
    proof {
        assert(-1000000 <= p.x * q.y <= 1000000 && -1000000 <= q.x * p.y <= 1000000)
            by (nonlinear_arith)
            requires
                -1000 <= p.x <= 1000,
                -1000 <= p.y <= 1000,
                -1000 <= q.x <= 1000,
                -1000 <= q.y <= 1000,
        ;
    }
    p.x as i64 * q.y as i64 - q.x as i64 * p.y as i64
}

/// Classifies one triangle: `Ok(true)` when the origin lies in the closed
/// triangle, `Ok(false)` when it does not, `Err` exactly on an out-of-range
/// coordinate or a degenerate triangle. Never aborts.
pub fn classify(t: &Triangle) -> (r: Result<bool, ClassifyError>)
    ensures
        r == spec_classify(*t),
        (r matches Ok(inside) && inside) <==> (triangle_in_range(*t) && !is_degenerate(*t)
            && origin_in_triangle(*t)),
        r == Err::<bool, ClassifyError>(ClassifyError::OutOfRange) <==> !triangle_in_range(*t),
        r == Err::<bool, ClassifyError>(ClassifyError::Degenerate) <==> (triangle_in_range(*t)
            && is_degenerate(*t)),
{
    if !t.in_range() {
        return Err(ClassifyError::OutOfRange);
    }
    let ab = edge_cross(&t.vertex_a, &t.vertex_b);
    let bc = edge_cross(&t.vertex_b, &t.vertex_c);
    let ca = edge_cross(&t.vertex_c, &t.vertex_a);
    proof {
        lemma_area_is_cross_sum(*t);
    }
    if ab + bc + ca == 0 {
        return Err(ClassifyError::Degenerate);
    }
    Ok((ab >= 0 && bc >= 0 && ca >= 0) || (ab <= 0 && bc <= 0 && ca <= 0))
}

} // verus!
