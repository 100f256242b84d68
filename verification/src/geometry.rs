//! The cube's geometry: its eight corners and the twelve edges derived from
//! them.
//!
//! A corner of the unit cube has all three coordinates in `{-1, 1}`. Two
//! corners span an edge exactly when they differ in a single axis, which for
//! such corners is the same as their squared Euclidean distance being 4
//! (a distance of 2). The edge list is derived by scanning all ordered corner
//! pairs and keeping a pair `(a, b)` when it spans an edge and the coordinate
//! sum of `a` exceeds the coordinate sum of `b`; the tie-break keeps exactly
//! one of the two directions of each edge.

use vstd::prelude::*;

verus! {

/// A corner of the unit cube, with every coordinate in `{-1, 1}`.
#[derive(Clone, Copy, Debug, PartialEq, Eq, Structural)]
pub struct Corner {
    pub x: i32,
    pub y: i32,
    pub z: i32,
}

/// An edge of the cube: an ordered pair of adjacent corners.
#[derive(Clone, Copy, Debug, PartialEq, Eq, Structural)]
pub struct Edge {
    pub a: Corner,
    pub b: Corner,
}

/// The eight corners of the unit cube, in the order the scan visits them.
pub open spec fn corner(i: int) -> Corner {
    if i == 0 {
        (Corner { x: -1i32, y: -1i32, z: -1i32 })
    } else if i == 1 {
        (Corner { x: 1i32, y: -1i32, z: -1i32 })
    } else if i == 2 {
        (Corner { x: 1i32, y: -1i32, z: 1i32 })
    } else if i == 3 {
        (Corner { x: -1i32, y: -1i32, z: 1i32 })
    } else if i == 4 {
        (Corner { x: -1i32, y: 1i32, z: 1i32 })
    } else if i == 5 {
        (Corner { x: -1i32, y: 1i32, z: -1i32 })
    } else if i == 6 {
        (Corner { x: 1i32, y: 1i32, z: -1i32 })
    } else {
        (Corner { x: 1i32, y: 1i32, z: 1i32 })
    }
}

/// Whether `c` is one of the eight cube corners.
pub open spec fn is_corner(c: Corner) -> bool {
    exists|i: int| 0 <= i < 8 && c == corner(i)
}

/// The sum of the three coordinates; the scan's tie-break compares these.
pub open spec fn coord_sum(c: Corner) -> int {
    c.x + c.y + c.z
}

/// The squared Euclidean distance between two corners.
pub open spec fn dist_sq(a: Corner, b: Corner) -> int {
    (a.x - b.x) * (a.x - b.x) + (a.y - b.y) * (a.y - b.y) + (a.z - b.z) * (a.z - b.z)
}

/// The pair `(a, b)` is kept as an edge: the corners are adjacent (distance
/// exactly 2, i.e. squared distance 4) and the coordinate sum of `a` exceeds
/// that of `b`, so of the two directions of each edge exactly one is kept.
pub open spec fn is_edge(a: Corner, b: Corner) -> bool {
    dist_sq(a, b) == 4 && coord_sum(a) > coord_sum(b)
}

/// Two edges cover the same unordered corner pair.
pub open spec fn same_undirected(e1: Edge, e2: Edge) -> bool {
    (e1.a == e2.a && e1.b == e2.b) || (e1.a == e2.b && e1.b == e2.a)
}

/// The edge list produced by the scan after finishing every row before row
/// `i` and, within row `i`, the first `j` columns. Row `r`, column `c` stands
/// for the ordered corner pair `(corner(r), corner(c))`.
pub open spec fn edge_upto(i: int, j: int) -> Seq<Edge>
    decreases i, j,
{
    if i <= 0 && j <= 0 {
        Seq::empty()
    } else if j <= 0 {
        edge_upto(i - 1, 8)
    } else {
        let prev = edge_upto(i, j - 1);
        let e = (Edge { a: corner(i), b: corner(j - 1) });
        if is_edge(e.a, e.b) {
            prev.push(e)
        } else {
            prev
        }
    }
}

/// The full edge list of the cube: every ordered corner pair scanned.
pub open spec fn edge_seq() -> Seq<Edge> {
    edge_upto(8, 0)
}

/// The twelve edges that the scan finds, written out in scan order.
pub open spec fn edge_seq_value() -> Seq<Edge> {
    seq![
        (Edge { a: corner(1), b: corner(0) }),
        (Edge { a: corner(2), b: corner(1) }),
        (Edge { a: corner(2), b: corner(3) }),
        (Edge { a: corner(3), b: corner(0) }),
        (Edge { a: corner(4), b: corner(3) }),
        (Edge { a: corner(4), b: corner(5) }),
        (Edge { a: corner(5), b: corner(0) }),
        (Edge { a: corner(6), b: corner(1) }),
        (Edge { a: corner(6), b: corner(5) }),
        (Edge { a: corner(7), b: corner(2) }),
        (Edge { a: corner(7), b: corner(4) }),
        (Edge { a: corner(7), b: corner(6) }),
    ]
}

/// Evaluates the scan: the derived edge list is exactly `edge_seq_value`.
proof fn lemma_edge_seq_is_value()
    ensures
        edge_seq() == edge_seq_value(),
{
    reveal_with_fuel(edge_upto, 80);
    assert(edge_seq() =~= edge_seq_value());
}

/// For values drawn from `{-1, 1}`, a squared difference is 0 on equal
/// values and 4 on different ones.
proof fn lemma_pm1_sq(u: int, v: int)
    requires
        u == -1 || u == 1,
        v == -1 || v == 1,
    ensures
        (u - v) * (u - v) == (if u == v {
            0int
        } else {
            4int
        }),
{
    assert((u - v) * (u - v) == (if u == v {
        0int
    } else {
        4int
    })) by (nonlinear_arith)
        requires
            (u == -1 || u == 1) && (v == -1 || v == 1),
    ;
}

/// Evaluates `dist_sq` on cube corners: each axis contributes 0 when the
/// coordinates agree and 4 when they differ.
proof fn lemma_dist_sq_eval(a: Corner, b: Corner)
    requires
        a.x == -1 || a.x == 1,
        a.y == -1 || a.y == 1,
        a.z == -1 || a.z == 1,
        b.x == -1 || b.x == 1,
        b.y == -1 || b.y == 1,
        b.z == -1 || b.z == 1,
    ensures
        dist_sq(a, b) == (if a.x == b.x {
            0int
        } else {
            4int
        }) + (if a.y == b.y {
            0int
        } else {
            4int
        }) + (if a.z == b.z {
            0int
        } else {
            4int
        }),
{
    lemma_pm1_sq(a.x as int, b.x as int);
    lemma_pm1_sq(a.y as int, b.y as int);
    lemma_pm1_sq(a.z as int, b.z as int);
}

/// Checks one entry of `edge_seq_value`: it satisfies the edge predicate.
proof fn lemma_edge_entry(k: int)
    requires
        0 <= k < 12,
    ensures
        is_edge(edge_seq_value()[k].a, edge_seq_value()[k].b),
        is_corner(edge_seq_value()[k].a),
        is_corner(edge_seq_value()[k].b),
{
    if k == 0 {
        assert(edge_seq_value()[0] == (Edge { a: corner(1), b: corner(0) }));
        lemma_dist_sq_eval(corner(1), corner(0));
        assert(is_edge(corner(1), corner(0)));
    } else if k == 1 {
        assert(edge_seq_value()[1] == (Edge { a: corner(2), b: corner(1) }));
        lemma_dist_sq_eval(corner(2), corner(1));
        assert(is_edge(corner(2), corner(1)));
    } else if k == 2 {
        assert(edge_seq_value()[2] == (Edge { a: corner(2), b: corner(3) }));
        lemma_dist_sq_eval(corner(2), corner(3));
        assert(is_edge(corner(2), corner(3)));
    } else if k == 3 {
        assert(edge_seq_value()[3] == (Edge { a: corner(3), b: corner(0) }));
        lemma_dist_sq_eval(corner(3), corner(0));
        assert(is_edge(corner(3), corner(0)));
    } else if k == 4 {
        assert(edge_seq_value()[4] == (Edge { a: corner(4), b: corner(3) }));
        lemma_dist_sq_eval(corner(4), corner(3));
        assert(is_edge(corner(4), corner(3)));
    } else if k == 5 {
        assert(edge_seq_value()[5] == (Edge { a: corner(4), b: corner(5) }));
        lemma_dist_sq_eval(corner(4), corner(5));
        assert(is_edge(corner(4), corner(5)));
    } else if k == 6 {
        assert(edge_seq_value()[6] == (Edge { a: corner(5), b: corner(0) }));
        lemma_dist_sq_eval(corner(5), corner(0));
        assert(is_edge(corner(5), corner(0)));
    } else if k == 7 {
        assert(edge_seq_value()[7] == (Edge { a: corner(6), b: corner(1) }));
        lemma_dist_sq_eval(corner(6), corner(1));
        assert(is_edge(corner(6), corner(1)));
    } else if k == 8 {
        assert(edge_seq_value()[8] == (Edge { a: corner(6), b: corner(5) }));
        lemma_dist_sq_eval(corner(6), corner(5));
        assert(is_edge(corner(6), corner(5)));
    } else if k == 9 {
        assert(edge_seq_value()[9] == (Edge { a: corner(7), b: corner(2) }));
        lemma_dist_sq_eval(corner(7), corner(2));
        assert(is_edge(corner(7), corner(2)));
    } else if k == 10 {
        assert(edge_seq_value()[10] == (Edge { a: corner(7), b: corner(4) }));
        lemma_dist_sq_eval(corner(7), corner(4));
        assert(is_edge(corner(7), corner(4)));
    } else if k == 11 {
        assert(edge_seq_value()[11] == (Edge { a: corner(7), b: corner(6) }));
        lemma_dist_sq_eval(corner(7), corner(6));
        assert(is_edge(corner(7), corner(6)));
    }
}

/// The cube has exactly twelve edges. Each edge joins two cube corners at
/// squared Euclidean distance 4 — a distance of exactly 2, so adjacent
/// corners only, never face or space diagonals — and no unordered corner
/// pair appears twice in the list.
pub proof fn lemma_cube_edges()
    ensures
        edge_seq().len() == 12,
        forall|k: int|
            0 <= k < edge_seq().len() ==> is_edge(
                (#[trigger] edge_seq()[k]).a,
                edge_seq()[k].b,
            ),
        forall|k: int|
            0 <= k < edge_seq().len() ==> dist_sq(
                (#[trigger] edge_seq()[k]).a,
                edge_seq()[k].b,
            ) == 4,
        forall|k: int|
            0 <= k < edge_seq().len() ==> is_corner((#[trigger] edge_seq()[k]).a) && is_corner(
                edge_seq()[k].b,
            ),
        forall|k1: int, k2: int|
            0 <= k1 < k2 < edge_seq().len() ==> !same_undirected(
                #[trigger] edge_seq()[k1],
                #[trigger] edge_seq()[k2],
            ),
{
    lemma_edge_seq_is_value();
    assert forall|k: int| 0 <= k < edge_seq().len() implies is_edge(
        (#[trigger] edge_seq()[k]).a,
        edge_seq()[k].b,
    ) && dist_sq(edge_seq()[k].a, edge_seq()[k].b) == 4 && is_corner(edge_seq()[k].a)
        && is_corner(edge_seq()[k].b) by {
        lemma_edge_entry(k);
    };
}

/// The eight corners as a vector, in scan order.
pub fn cube_corners() -> (r: Vec<Corner>)
    ensures
        r@.len() == 8,
        forall|i: int| 0 <= i < 8 ==> r@[i] == corner(i),
{
    let mut r: Vec<Corner> = Vec::new();
    r.push(Corner { x: -1i32, y: -1i32, z: -1i32 });
    r.push(Corner { x: 1i32, y: -1i32, z: -1i32 });
    r.push(Corner { x: 1i32, y: -1i32, z: 1i32 });
    r.push(Corner { x: -1i32, y: -1i32, z: 1i32 });
    r.push(Corner { x: -1i32, y: 1i32, z: 1i32 });
    r.push(Corner { x: -1i32, y: 1i32, z: -1i32 });
    r.push(Corner { x: 1i32, y: 1i32, z: -1i32 });
    r.push(Corner { x: 1i32, y: 1i32, z: 1i32 });
    r
}

/// Derives the cube's edge list from its corners: every ordered pair of
/// corners is scanned, and a pair is kept when it spans an edge under the
/// tie-break of `is_edge`.
pub fn edge_list() -> (r: Vec<Edge>)
    ensures
        r@ == edge_seq(),
{
    let corners = cube_corners();
    let mut r: Vec<Edge> = Vec::new();
    let mut i: usize = 0;
    while i < 8
        invariant
            i <= 8,
            corners@.len() == 8,
            forall|k: int| 0 <= k < 8 ==> corners@[k] == corner(k),
            r@ == edge_upto(i as int, 0),
        decreases 8 - i,
    {
        let mut j: usize = 0;
        while j < 8
            invariant
                i < 8,
                j <= 8,
                corners@.len() == 8,
                forall|k: int| 0 <= k < 8 ==> corners@[k] == corner(k),
                r@ == edge_upto(i as int, j as int),
            decreases 8 - j,
        {
            let a = corners[i];
            let b = corners[j];
            proof {
                assert(a == corner(i as int));
                assert(b == corner(j as int));
            }
            let dx: i32 = a.x - b.x;
            let dy: i32 = a.y - b.y;
            let dz: i32 = a.z - b.z;
            proof {
                assert(0 <= dx * dx <= 4) by (nonlinear_arith)
                    requires
                        -2 <= dx <= 2,
                ;
                assert(0 <= dy * dy <= 4) by (nonlinear_arith)
                    requires
                        -2 <= dy <= 2,
                ;
                assert(0 <= dz * dz <= 4) by (nonlinear_arith)
                    requires
                        -2 <= dz <= 2,
                ;
            }
            let d2: i32 = dx * dx + dy * dy + dz * dz;
            if d2 == 4 && a.x + a.y + a.z > b.x + b.y + b.z {
                r.push(Edge { a, b });
            }
            j += 1;
        }
        i += 1;
    }
    r
}

} // verus!
