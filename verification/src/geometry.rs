//! Integer geometry rings.
//!
//! Final coordinates are rounded to billionths of a degree, so a geometry is
//! held exactly as scaled integers: a point is one coordinate pair, a box or
//! polygon boundary is a closed ring of pairs.  The ring constructors prove
//! the well-formedness laws: a ring closes on its first vertex, and a box
//! ring is an axis-aligned rectangle.

use vstd::prelude::*;

verus! {

/// One coordinate pair, in billionths of a degree.
#[derive(Debug, Clone, Copy, PartialEq, Eq, Structural)]
pub struct GeoPoint {
    /// Longitude, in billionths of a degree.
    pub x: i64,
    /// Latitude, in billionths of a degree.
    pub y: i64,
}

/// A ring is closed: it has at least four entries (three vertices plus the
/// repeated first) and its last entry repeats its first.
pub open spec fn ring_closed(ring: Seq<GeoPoint>) -> bool {
    ring.len() >= 4 && ring.first() == ring.last()
}

/// The five entries of a box ring over the corner coordinates.
pub open spec fn spec_box_ring(x_lo: i64, x_hi: i64, y_lo: i64, y_hi: i64) -> Seq<GeoPoint> {
    seq![
        GeoPoint { x: x_lo, y: y_lo },
        GeoPoint { x: x_hi, y: y_lo },
        GeoPoint { x: x_hi, y: y_hi },
        GeoPoint { x: x_lo, y: y_hi },
        GeoPoint { x: x_lo, y: y_lo },
    ]
}

/// Closes a list of vertices into a ring by repeating the first vertex.
pub fn close_ring(vertices: Vec<GeoPoint>) -> (r: Vec<GeoPoint>)
    requires
        vertices@.len() >= 1,
    ensures
        r@ == vertices@.push(vertices@[0]),
        r@.len() == vertices@.len() + 1,
        r@.first() == r@.last(),
        vertices@.len() >= 3 ==> ring_closed(r@),
{
    let mut ring = vertices;
    let first = GeoPoint { x: ring[0].x, y: ring[0].y };
    ring.push(first);
    proof {
        assert(ring@.first() == ring@.last());
    }
    ring
}

/// Builds the closed boundary ring of an axis-aligned box from its corner
/// coordinates.  The ring repeats its first corner, every edge is parallel
/// to an axis, and with both extents proper the four corners are distinct.
pub fn box_ring(x_lo: i64, x_hi: i64, y_lo: i64, y_hi: i64) -> (r: Vec<GeoPoint>)
    requires
        x_lo <= x_hi,
        y_lo <= y_hi,
    ensures
        r@ == spec_box_ring(x_lo, x_hi, y_lo, y_hi),
        ring_closed(r@),
        r@[0].y == r@[1].y && r@[1].x == r@[2].x && r@[2].y == r@[3].y && r@[3].x == r@[0].x,
        x_lo < x_hi && y_lo < y_hi ==> (r@[0] != r@[1] && r@[1] != r@[2] && r@[2] != r@[3]
            && r@[3] != r@[0] && r@[0] != r@[2] && r@[1] != r@[3]),
{
    let mut ring: Vec<GeoPoint> = Vec::new();
    ring.push(GeoPoint { x: x_lo, y: y_lo });
    ring.push(GeoPoint { x: x_hi, y: y_lo });
    ring.push(GeoPoint { x: x_hi, y: y_hi });
    ring.push(GeoPoint { x: x_lo, y: y_hi });
    ring.push(GeoPoint { x: x_lo, y: y_lo });
    proof {
        assert(ring@ =~= spec_box_ring(x_lo, x_hi, y_lo, y_hi));
    }
    ring
}

/// Whether a ring is closed, checked on the ring itself.
pub fn ring_is_closed(ring: &Vec<GeoPoint>) -> (r: bool)
    ensures
        r == ring_closed(ring@),
{
    if ring.len() < 4 {
        return false;
    }
    let first = ring[0];
    let last = ring[ring.len() - 1];
    first.x == last.x && first.y == last.y
}

} // verus!
