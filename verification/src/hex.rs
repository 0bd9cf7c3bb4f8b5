use vstd::prelude::*;

verus! {

/// Axial hex coordinates (Red Blob Games convention).
#[derive(Debug, Clone, Copy, PartialEq, Eq, Structural, Hash)]
pub struct HexCoord {
    pub q: i32,
    pub r: i32,
}

/// Absolute value over the integers.
pub open spec fn abs_int(x: int) -> int {
    if x < 0 { -x } else { x }
}

/// Whether a mathematical integer lies in the range of `i32`.
pub open spec fn fits_i32(x: int) -> bool {
    i32::MIN <= x <= i32::MAX
}

impl HexCoord {
    /// The origin of the axial grid.
    pub fn zero() -> (h: HexCoord)
        ensures
            h.q == 0,
            h.r == 0,
    {
        HexCoord { q: 0, r: 0 }
    }

    pub fn new(q: i32, r: i32) -> (h: HexCoord)
        ensures
            h.q == q,
            h.r == r,
    {
        HexCoord { q, r }
    }

    /// Hex distance between two cells: half the sum of the absolute axial and cube
    /// coordinate differences.
    pub open spec fn spec_distance(self, other: HexCoord) -> int {
        let dq = self.q - other.q;
        let dr = self.r - other.r;
        let ds = (-self.q - self.r) - (-other.q - other.r);
        (abs_int(dq) + abs_int(dr) + abs_int(ds)) / 2
    }

    /// Every intermediate value of the `i32` computation of the distance fits in `i32`.
    pub open spec fn distance_fits(self, other: HexCoord) -> bool {
        let dq = self.q - other.q;
        let dr = self.r - other.r;
        let ds = (-self.q - self.r) - (-other.q - other.r);
        &&& fits_i32(dq)
        &&& fits_i32(dr)
        &&& fits_i32(-self.q)
        &&& fits_i32(-self.q - self.r)
        &&& fits_i32(-other.q)
        &&& fits_i32(-other.q - other.r)
        &&& fits_i32(ds)
        &&& fits_i32(-dq)
        &&& fits_i32(-dr)
        &&& fits_i32(-ds)
        &&& fits_i32(abs_int(dq) + abs_int(dr))
        &&& fits_i32(abs_int(dq) + abs_int(dr) + abs_int(ds))
    }

    /// Both coordinates lie within a quarter of the `i32` range, far beyond any board.
    pub open spec fn is_bounded(self) -> bool {
        -0x0800_0000 <= self.q <= 0x0800_0000 && -0x0800_0000 <= self.r <= 0x0800_0000
    }

    pub fn distance(self, other: HexCoord) -> (d: u32)
        requires
            self.distance_fits(other),
        ensures
            d as int == self.spec_distance(other),
    {
        let dq = self.q - other.q;
        let dr = self.r - other.r;
        let ds = (-self.q - self.r) - (-other.q - other.r);
        let adq = if dq < 0 { -dq } else { dq };
        let adr = if dr < 0 { -dr } else { dr };
        let ads = if ds < 0 { -ds } else { ds };
        ((adq + adr + ads) / 2) as u32
    }
}

fn in_i32(x: i64) -> (b: bool)
    ensures
        b == fits_i32(x as int),
{
    i32::MIN as i64 <= x && x <= i32::MAX as i64
}

impl HexCoord {
    /// Whether the `i32` computation of the distance to `other` stays in range.
    pub fn fits_distance(self, other: HexCoord) -> (b: bool)
        ensures
            b == self.distance_fits(other),
    {
        let (aq, ar, bq, br) = (self.q as i64, self.r as i64, other.q as i64, other.r as i64);
        let dq = aq - bq;
        let dr = ar - br;
        let ds = (-aq - ar) - (-bq - br);
        let adq = if dq < 0 { -dq } else { dq };
        let adr = if dr < 0 { -dr } else { dr };
        let ads = if ds < 0 { -ds } else { ds };
        in_i32(dq) && in_i32(dr) && in_i32(-aq) && in_i32(-aq - ar) && in_i32(-bq) && in_i32(-bq - br)
            && in_i32(ds) && in_i32(-dq) && in_i32(-dr) && in_i32(-ds) && in_i32(adq + adr)
            && in_i32(adq + adr + ads)
    }
}

/// Bounded coordinates never overflow the distance computation.
pub proof fn lemma_bounded_distance_fits(a: HexCoord, b: HexCoord)
    requires
        a.is_bounded(),
        b.is_bounded(),
    ensures
        a.distance_fits(b),
        a.spec_distance(b) >= 0,
{
}

/// Distance is zero from a cell to itself and symmetric.
pub proof fn lemma_distance_zero_and_symmetric(a: HexCoord, b: HexCoord)
    ensures
        a.spec_distance(a) == 0,
        a.spec_distance(b) == b.spec_distance(a),
        a.spec_distance(b) >= 0,
        a.spec_distance(b) == 0 <==> a == b,
{
}

} // verus!
