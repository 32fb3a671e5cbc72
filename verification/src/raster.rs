//! Discrete decisions of the rasterization pipeline: vertex fetching, the
//! winding-order rules of back-face culling, and the row-major scan order
//! of scan conversion.
use vstd::prelude::*;

use crate::geometry::PixelCoord;
use crate::geometry::Triangle;
use crate::geometry::WindingOrder;

verus! {

/// Read-only random access to application-supplied vertex data.
pub trait VertexBuffer<V> {
    /// Whether `index` refers to a vertex of this buffer.
    spec fn valid_index(&self, index: u32) -> bool;

    /// The vertex that `index` refers to.
    spec fn vertex_at(&self, index: u32) -> V;

    /// Tells whether `index` refers to a vertex of this buffer, so that a
    /// caller can test it before fetching.
    fn has_vertex(&self, index: u32) -> (b: bool)
        ensures
            b == self.valid_index(index),
    ;

    /// Looks up the vertex that `index` refers to.
    fn get_vertex(&self, index: u32) -> (v: V)
        requires
            self.valid_index(index),
        ensures
            v == self.vertex_at(index),
    ;
}

impl<V: Copy> VertexBuffer<V> for Vec<V> {
    open spec fn valid_index(&self, index: u32) -> bool {
        index < self@.len()
    }

    open spec fn vertex_at(&self, index: u32) -> V {
        self@[index as int]
    }

    fn has_vertex(&self, index: u32) -> (b: bool) {
        (index as usize) < self.len()
    }

    fn get_vertex(&self, index: u32) -> (v: V) {
        self[index as usize]
    }
}

/// Fetches the three vertices that a triangle's indices refer to, in
/// order.
pub fn fetch_vertices<V, B: VertexBuffer<V>>(buffer: &B, indices: &Triangle<u32>) -> (vs: [V; 3])
    requires
        buffer.valid_index(indices.vertices[0]),
        buffer.valid_index(indices.vertices[1]),
        buffer.valid_index(indices.vertices[2]),
    ensures
        vs[0] == buffer.vertex_at(indices.vertices[0]),
        vs[1] == buffer.vertex_at(indices.vertices[1]),
        vs[2] == buffer.vertex_at(indices.vertices[2]),
{
    [
        buffer.get_vertex(indices.vertices[0]),
        buffer.get_vertex(indices.vertices[1]),
        buffer.get_vertex(indices.vertices[2]),
    ]
}

/// Classifies a screen-space triangle from the sign of its shoelace sum
/// `sum ((next.x - cur.x) * (next.y + cur.y))` over its three edges: a
/// positive total area means the vertices wind clockwise, a non-positive
/// one (a degenerate triangle included) counter-clockwise.
pub fn winding_of_area_sign(area_is_positive: bool) -> (w: WindingOrder)
    ensures
        w == (if area_is_positive {
            WindingOrder::Clockwise
        } else {
            WindingOrder::CounterClockwise
        }),
{
    if area_is_positive {
        WindingOrder::Clockwise
    } else {
        WindingOrder::CounterClockwise
    }
}

/// Whether back-face culling discards a triangle: it does exactly when a
/// front face is required and the triangle's winding differs from it.
/// With no required front face nothing is culled.
pub fn culls_back_face(front_face: Option<WindingOrder>, winding: WindingOrder) -> (c: bool)
    ensures
        c == (match front_face {
            Some(front) => front != winding,
            None => false,
        }),
{
    match front_face {
        Some(front) => front != winding,
        None => false,
    }
}

/// `r` enumerates the pixels of the half-open box `[x_min, x_max) x
/// [y_min, y_max)` in row-major scan order: position `k` holds the pixel
/// in row `k / w`, column `k % w` of the box, `w` being the box's width.
pub open spec fn row_major_scan(
    r: Seq<PixelCoord>,
    x_min: int,
    x_max: int,
    y_min: int,
    y_max: int,
) -> bool {
    &&& r.len() == (x_max - x_min) * (y_max - y_min)
    &&& forall|k: int|
        #![trigger r[k]]
        0 <= k < r.len() ==> r[k].x == x_min + k % (x_max - x_min) && r[k].y == y_min + k / (x_max
            - x_min)
}

/// Enumerates the pixels of the half-open box `[x_min, x_max) x
/// [y_min, y_max)` in row-major scan order: top row first, each row left
/// to right.
pub fn scanline_pixels(x_min: u32, x_max: u32, y_min: u32, y_max: u32) -> (r: Vec<PixelCoord>)
    requires
        x_min <= x_max,
        y_min <= y_max,
        (x_max - x_min) * (y_max - y_min) <= usize::MAX,
    ensures
        row_major_scan(r@, x_min as int, x_max as int, y_min as int, y_max as int),
{
    let mut r: Vec<PixelCoord> = Vec::new();
    let mut y: u32 = y_min;
    while y < y_max
        invariant
            x_min <= x_max,
            y_min <= y <= y_max,
            (x_max - x_min) * (y_max - y_min) <= usize::MAX,
            r@.len() == (x_max - x_min) * (y - y_min),
            forall|k: int|
                #![trigger r@[k]]
                0 <= k < r@.len() ==> r@[k].x == x_min + k % (x_max - x_min) && r@[k].y == y_min
                    + k / (x_max - x_min),
        decreases y_max - y,
    {
        let mut x: u32 = x_min;
        while x < x_max
            invariant
                x_min <= x <= x_max,
                y_min <= y < y_max,
                (x_max - x_min) * (y_max - y_min) <= usize::MAX,
                r@.len() == (x_max - x_min) * (y - y_min) + (x - x_min),
                forall|k: int|
                    #![trigger r@[k]]
                    0 <= k < r@.len() ==> r@[k].x == x_min + k % (x_max - x_min) && r@[k].y
                        == y_min + k / (x_max - x_min),
            decreases x_max - x,
        {
            proof {
                lemma_row_major_position(
                    x_min as int,
                    x_max as int,
                    y_min as int,
                    y_max as int,
                    x as int,
                    y as int,
                );
            }
            r.push(PixelCoord { x, y });
            x = x + 1;
        }
        proof {
            assert((x_max - x_min) * ((y - y_min) + 1)
                == (x_max - x_min) * (y - y_min) + (x_max - x_min)) by (nonlinear_arith);
        }
        y = y + 1;
    }
    r
}

/// Scan conversion reaches every pixel of its box: in a row-major
/// enumeration of the box, the pixel `(x, y)` stands at position
/// `w * (y - y_min) + (x - x_min)`, `w` being the box's width.
pub proof fn lemma_scan_covers_pixel(
    r: Seq<PixelCoord>,
    x_min: int,
    x_max: int,
    y_min: int,
    y_max: int,
    x: int,
    y: int,
)
    requires
        row_major_scan(r, x_min, x_max, y_min, y_max),
        x_min <= x < x_max,
        y_min <= y < y_max,
    ensures
        0 <= (x_max - x_min) * (y - y_min) + (x - x_min) < r.len(),
        r[(x_max - x_min) * (y - y_min) + (x - x_min)].x == x,
        r[(x_max - x_min) * (y - y_min) + (x - x_min)].y == y,
{
    lemma_row_major_position(x_min, x_max, y_min, y_max, x, y);
    let k: int = (x_max - x_min) * (y - y_min) + (x - x_min);
    assert(r[k].x == x_min + k % (x_max - x_min) && r[k].y == y_min + k / (x_max - x_min));
}

/// Scan conversion stays inside its box: every pixel of a row-major
/// enumeration lies in `[x_min, x_max) x [y_min, y_max)`.
pub proof fn lemma_scan_in_box(r: Seq<PixelCoord>, x_min: int, x_max: int, y_min: int, y_max: int)
    requires
        row_major_scan(r, x_min, x_max, y_min, y_max),
        x_min <= x_max,
        y_min <= y_max,
    ensures
        forall|k: int|
            0 <= k < r.len() ==> x_min <= #[trigger] r[k].x < x_max && y_min <= r[k].y < y_max,
{
    let w: int = x_max - x_min;
    assert forall|k: int|
        0 <= k < r.len() implies x_min <= #[trigger] r[k].x < x_max && y_min <= r[k].y < y_max by {
        assert(w * (y_max - y_min) > 0);
        assert(w > 0 && y_max - y_min > 0) by (nonlinear_arith)
            requires
                w * (y_max - y_min) > 0,
                w >= 0,
                y_max - y_min >= 0,
        ;
        vstd::arithmetic::div_mod::lemma_mod_bound(k, w);
        vstd::arithmetic::div_mod::lemma_div_pos_is_pos(k, w);
        vstd::arithmetic::div_mod::lemma_multiply_divide_lt(k, w, y_max - y_min);
        assert(r[k].x == x_min + k % w && r[k].y == y_min + k / w);
    };
}

/// Scan conversion reaches no pixel of its box twice: two distinct
/// positions of a row-major enumeration hold distinct pixels.
pub proof fn lemma_scan_no_repeat(
    r: Seq<PixelCoord>,
    x_min: int,
    x_max: int,
    y_min: int,
    y_max: int,
)
    requires
        row_major_scan(r, x_min, x_max, y_min, y_max),
        x_min <= x_max,
        y_min <= y_max,
    ensures
        forall|k1: int, k2: int|
            0 <= k1 < r.len() && 0 <= k2 < r.len() && k1 != k2 ==> r[k1] != r[k2],
{
    let w: int = x_max - x_min;
    assert forall|k1: int, k2: int|
        0 <= k1 < r.len() && 0 <= k2 < r.len() && k1 != k2 implies r[k1] != r[k2] by {
        if r[k1] == r[k2] {
            assert(w * (y_max - y_min) > 0);
            assert(w != 0) by (nonlinear_arith)
                requires
                    w * (y_max - y_min) > 0,
            ;
            assert(k1 % w == k2 % w && k1 / w == k2 / w);
            vstd::arithmetic::div_mod::lemma_fundamental_div_mod(k1, w);
            vstd::arithmetic::div_mod::lemma_fundamental_div_mod(k2, w);
        }
    };
}

/// At position `w * (y - y_min) + (x - x_min)` of a row-major enumeration
/// of the box, `w` being the box's width, stands exactly the pixel
/// `(x, y)`: the position's remainder and quotient by `w` recover the
/// column and the row, and the position lies inside the enumeration.
proof fn lemma_row_major_position(x_min: int, x_max: int, y_min: int, y_max: int, x: int, y: int)
    requires
        x_min <= x < x_max,
        y_min <= y < y_max,
    ensures
        ((x_max - x_min) * (y - y_min) + (x - x_min)) % (x_max - x_min) == x - x_min,
        ((x_max - x_min) * (y - y_min) + (x - x_min)) / (x_max - x_min) == y - y_min,
        (x_max - x_min) * (y - y_min) + (x - x_min) < (x_max - x_min) * (y_max - y_min),
        (x_max - x_min) * (y - y_min) + (x - x_min) >= 0,
{
    let w: int = x_max - x_min;
    let q: int = y - y_min;
    let rem: int = x - x_min;
    assert(w * q == q * w) by (nonlinear_arith);
    vstd::arithmetic::div_mod::lemma_fundamental_div_mod_converse(q * w + rem, w, q, rem);
    assert(w * q + rem < w * (y_max - y_min)) by (nonlinear_arith)
        requires
            0 <= rem < w,
            0 <= q,
            q < y_max - y_min,
    ;
    assert(w * q + rem >= 0) by (nonlinear_arith)
        requires
            0 <= rem,
            0 <= q,
            0 < w,
    ;
}

} // verus!
