use vstd::prelude::*;

verus! {

/// Whether an integer fits in an `i32`.
pub open spec fn fits_i32(x: int) -> bool {
    i32::MIN <= x <= i32::MAX
}

/// Absolute value of a mathematical integer.
pub open spec fn abs_int(x: int) -> int {
    if x < 0 {
        -x
    } else {
        x
    }
}

/// Largest of three integers.
pub open spec fn max3(a: int, b: int, c: int) -> int {
    if a >= b && a >= c {
        a
    } else if b >= c {
        b
    } else {
        c
    }
}

/// Axial hex coordinates (q, r) of a pointy-topped hexagon grid.
#[derive(Debug, Clone, Copy, PartialEq, Eq, Hash, Structural)]
pub struct HexCoord {
    pub q: i32,
    pub r: i32,
}

impl HexCoord {
    /// The cube coordinate s, so that q + r + s == 0.
    pub open spec fn cube_s(self) -> int {
        -(self.q as int) - (self.r as int)
    }

    /// Number of tiles between two hexes: half the sum of the absolute
    /// differences of the three cube coordinates.
    pub open spec fn hex_distance(self, other: HexCoord) -> int {
        (abs_int(self.q - other.q) + abs_int(self.r - other.r) + abs_int(
            self.cube_s() - other.cube_s(),
        )) / 2
    }

    /// `s` can be computed in `i32` without overflow.
    pub open spec fn s_computable(self) -> bool {
        self.q > i32::MIN && fits_i32(self.cube_s())
    }

    /// `distance` can be computed in `i32` without overflow.
    pub open spec fn distance_computable(self, other: HexCoord) -> bool {
        let dq = self.q - other.q;
        let dr = self.r - other.r;
        let ds = self.cube_s() - other.cube_s();
        &&& self.s_computable()
        &&& other.s_computable()
        &&& i32::MIN < dq <= i32::MAX
        &&& i32::MIN < dr <= i32::MAX
        &&& i32::MIN < ds <= i32::MAX
        &&& fits_i32(abs_int(dq) + abs_int(dr))
        &&& fits_i32(abs_int(dq) + abs_int(dr) + abs_int(ds))
    }

    /// The six neighbouring hexes, in the direction order
    /// (+1, 0), (+1, -1), (0, -1), (-1, 0), (-1, +1), (0, +1).
    pub open spec fn neighbor_seq(self) -> Seq<HexCoord> {
        seq![
            HexCoord { q: (self.q + 1) as i32, r: self.r },
            HexCoord { q: (self.q + 1) as i32, r: (self.r - 1) as i32 },
            HexCoord { q: self.q, r: (self.r - 1) as i32 },
            HexCoord { q: (self.q - 1) as i32, r: self.r },
            HexCoord { q: (self.q - 1) as i32, r: (self.r + 1) as i32 },
            HexCoord { q: self.q, r: (self.r + 1) as i32 },
        ]
    }

    /// The neighbours can be computed in `i32` without overflow.
    pub open spec fn neighbors_computable(self) -> bool {
        &&& i32::MIN < self.q < i32::MAX
        &&& i32::MIN < self.r < i32::MAX
    }

    pub fn new(q: i32, r: i32) -> (c: HexCoord)
        ensures
            c.q == q,
            c.r == r,
    {
        HexCoord { q, r }
    }

    /// The cube coordinate s of this hex (q + r + s == 0).
    pub fn s(&self) -> (s: i32)
        requires
            self.s_computable(),
        ensures
            s == self.cube_s(),
    {
        -self.q - self.r
    }

    /// Distance between two hexes in tiles.
    pub fn distance(&self, other: HexCoord) -> (d: i32)
        requires
            self.distance_computable(other),
        ensures
            d == self.hex_distance(other),
    {
        let dq = abs_i32(self.q - other.q);
        let dr = abs_i32(self.r - other.r);
        let ds = abs_i32(self.s() - other.s());
        (dq + dr + ds) / 2
    }

    /// The six neighbouring hexes.
    pub fn neighbors(&self) -> (n: [HexCoord; 6])
        requires
            self.neighbors_computable(),
        ensures
            n@ == self.neighbor_seq(),
    {
        let res = [
            HexCoord::new(self.q + 1, self.r),
            HexCoord::new(self.q + 1, self.r - 1),
            HexCoord::new(self.q, self.r - 1),
            HexCoord::new(self.q - 1, self.r),
            HexCoord::new(self.q - 1, self.r + 1),
            HexCoord::new(self.q, self.r + 1),
        ];
        assert(res@ =~= self.neighbor_seq());
        res
    }
}

fn abs_i32(x: i32) -> (a: i32)
    requires
        x > i32::MIN,
    ensures
        a == abs_int(x as int),
{
    if x < 0 {
        -x
    } else {
        x
    }
}

/// A hex is at distance zero from itself.
pub proof fn lemma_distance_to_self(a: HexCoord)
    ensures
        a.hex_distance(a) == 0,
{
}

/// Distance does not depend on the order of its arguments.
pub proof fn lemma_distance_symmetric(a: HexCoord, b: HexCoord)
    ensures
        a.hex_distance(b) == b.hex_distance(a),
{
}

/// Distance is never negative, and it is zero exactly for equal hexes.
pub proof fn lemma_distance_zero_iff_equal(a: HexCoord, b: HexCoord)
    ensures
        a.hex_distance(b) >= 0,
        a.hex_distance(b) == 0 <==> a == b,
{
}

/// Hex distance equals the largest absolute difference of the three cube
/// coordinates.
pub proof fn lemma_distance_is_max_cube_difference(a: HexCoord, b: HexCoord)
    ensures
        a.hex_distance(b) == max3(
            abs_int(a.q - b.q),
            abs_int(a.r - b.r),
            abs_int(a.cube_s() - b.cube_s()),
        ),
{
}

/// Hex distance satisfies the triangle inequality.
pub proof fn lemma_distance_triangle(a: HexCoord, b: HexCoord, c: HexCoord)
    ensures
        a.hex_distance(c) <= a.hex_distance(b) + b.hex_distance(c),
{
    lemma_distance_is_max_cube_difference(a, b);
    lemma_distance_is_max_cube_difference(b, c);
    lemma_distance_is_max_cube_difference(a, c);
}

/// Every neighbour is at distance one, and the six neighbours are distinct.
pub proof fn lemma_neighbors_adjacent(a: HexCoord)
    requires
        a.neighbors_computable(),
    ensures
        forall|i: int| 0 <= i < 6 ==> #[trigger] a.hex_distance(a.neighbor_seq()[i]) == 1,
        forall|i: int, j: int|
            0 <= i < 6 && 0 <= j < 6 && i != j ==> a.neighbor_seq()[i] != a.neighbor_seq()[j],
{
}

/// Every hex at distance one is one of the six neighbours.
pub proof fn lemma_adjacent_is_neighbor(a: HexCoord, b: HexCoord)
    requires
        a.neighbors_computable(),
        a.hex_distance(b) == 1,
    ensures
        a.neighbor_seq().contains(b),
{
    lemma_distance_is_max_cube_difference(a, b);
    let n = a.neighbor_seq();
    if b.q == a.q + 1 && b.r == a.r {
        assert(n[0] == b);
    } else if b.q == a.q + 1 && b.r == a.r - 1 {
        assert(n[1] == b);
    } else if b.q == a.q && b.r == a.r - 1 {
        assert(n[2] == b);
    } else if b.q == a.q - 1 && b.r == a.r {
        assert(n[3] == b);
    } else if b.q == a.q - 1 && b.r == a.r + 1 {
        assert(n[4] == b);
    } else {
        assert(n[5] == b);
    }
}

} // verus!
