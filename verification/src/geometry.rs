//! Points and triangles on the bounded integer plane, and the exact equation
//! of the infinite line through two points: either a (slope, intercept) pair
//! of exact ratios, or a sentinel for a vertical line.

use crate::ratio::ratio;
use crate::ratio::Ratio;
use vstd::prelude::*;

verus! {

/// Smallest coordinate of the bounded plane.
pub const MIN_AXIS: i32 = -1000;

/// Largest coordinate of the bounded plane.
pub const MAX_AXIS: i32 = 1000;

/// A point of the integer plane, immutable once constructed.
#[derive(Clone, Copy, PartialEq, Eq, Structural, Debug)]
pub struct Vertex {
    pub x: i32,
    pub y: i32,
}

/// Three labelled vertices. The labels carry no meaning: classification is
/// invariant under any permutation of the three.
#[derive(Clone, Copy, PartialEq, Eq, Structural, Debug)]
pub struct Triangle {
    pub vertex_a: Vertex,
    pub vertex_b: Vertex,
    pub vertex_c: Vertex,
}

/// The coordinate lies on the bounded axis.
pub open spec fn coord_in_range(c: int) -> bool {
    MIN_AXIS <= c && c <= MAX_AXIS
}

/// Both coordinates of the vertex lie on the bounded plane.
pub open spec fn vertex_in_range(v: Vertex) -> bool {
    coord_in_range(v.x as int) && coord_in_range(v.y as int)
}

/// All three vertices lie on the bounded plane.
pub open spec fn triangle_in_range(t: Triangle) -> bool {
    vertex_in_range(t.vertex_a) && vertex_in_range(t.vertex_b) && vertex_in_range(t.vertex_c)
}

impl Vertex {
    pub fn new(x: i32, y: i32) -> (v: Vertex)
        ensures
            v.x == x,
            v.y == y,
    {
        Vertex { x, y }
    }

    /// Tests that both coordinates lie on the bounded plane.
    pub fn in_range(&self) -> (r: bool)
        ensures
            r == vertex_in_range(*self),
    {
        MIN_AXIS <= self.x && self.x <= MAX_AXIS && MIN_AXIS <= self.y && self.y <= MAX_AXIS
    }
}

impl Triangle {
    pub fn new(vertex_a: Vertex, vertex_b: Vertex, vertex_c: Vertex) -> (t: Triangle)
        ensures
            t.vertex_a == vertex_a,
            t.vertex_b == vertex_b,
            t.vertex_c == vertex_c,
    {
        Triangle { vertex_a, vertex_b, vertex_c }
    }

    pub fn new_from_ints(a_x: i32, a_y: i32, b_x: i32, b_y: i32, c_x: i32, c_y: i32) -> (t:
        Triangle)
        ensures
            t.vertex_a == (Vertex { x: a_x, y: a_y }),
            t.vertex_b == (Vertex { x: b_x, y: b_y }),
            t.vertex_c == (Vertex { x: c_x, y: c_y }),
    {
        Triangle::new(Vertex::new(a_x, a_y), Vertex::new(b_x, b_y), Vertex::new(c_x, c_y))
    }

    /// Tests that all three vertices lie on the bounded plane.
    pub fn in_range(&self) -> (r: bool)
        ensures
            r == triangle_in_range(*self),
    {
        self.vertex_a.in_range() && self.vertex_b.in_range() && self.vertex_c.in_range()
    }
}

/// The exact equation of the infinite line through two points: `Slant` holds
/// slope and y-intercept as exact ratios; `Vertical` marks a line `x = c`,
/// whose slope would need a division by zero.
#[derive(Clone, Copy, PartialEq, Eq, Structural, Debug)]
pub enum LineEquation {
    Vertical { x: i32 },
    Slant { slope: Ratio, intercept: Ratio },
}

/// Computes the equation of the infinite line through `p1` and `p2`. For a
/// non-vertical line the slope is exactly `(p2.y - p1.y) / (p2.x - p1.x)` and
/// the intercept exactly `p1.y - slope * p1.x`; verticality is detected and
/// reported before any division is attempted.
pub fn line_through(p1: &Vertex, p2: &Vertex) -> (r: LineEquation)
    requires
        vertex_in_range(*p1),
        vertex_in_range(*p2),
    ensures
        p1.x == p2.x ==> r == (LineEquation::Vertical { x: p1.x }),
        p1.x != p2.x ==> (r matches LineEquation::Slant { slope, intercept } && slope.wf()
            && intercept.wf() && slope.represents(p2.y - p1.y, p2.x - p1.x)
            && intercept.represents(p1.y * (p2.x - p1.x) - (p2.y - p1.y) * p1.x, p2.x - p1.x)),
{
    let dx: i64 = p2.x as i64 - p1.x as i64;
    let dy: i64 = p2.y as i64 - p1.y as i64;
    if dx == 0 {
        return LineEquation::Vertical { x: p1.x };
    }
    proof {
        assert(-2000000 <= p1.y * dx <= 2000000 && -2000000 <= dy * p1.x <= 2000000)
            by (nonlinear_arith)
            requires
                -1000 <= p1.x <= 1000,
                -1000 <= p1.y <= 1000,
                -2000 <= dx <= 2000,
                -2000 <= dy <= 2000,
        ;
    }
    let slope = ratio(dy, dx);
    let intercept = ratio(p1.y as i64 * dx - dy * p1.x as i64, dx);
    LineEquation::Slant { slope, intercept }
}

} // verus!
