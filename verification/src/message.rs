//! Boundary messages: an immutable snapshot of a polygon's points, the
//! reference frame they are expressed in, and a timestamp; and the two
//! helpers that build and read them.

use vstd::prelude::*;

verus! {

use crate::geometry::Point3;

/// A timestamp: seconds and nanoseconds. The library never interprets it; it
/// is handed back to the caller for the transform lookup.
#[derive(Clone, Copy, PartialEq, Eq, Structural, Debug)]
pub struct Time {
    pub sec: u32,
    pub nsec: u32,
}

/// Message metadata: a sequence number, the timestamp the boundary was
/// captured at, and the name of the reference frame its points live in.
#[derive(Debug)]
pub struct Header {
    pub seq: u32,
    pub stamp: Time,
    pub frame_id: String,
}

/// An ordered polygon boundary: the point sequence alone.
#[derive(Debug)]
pub struct Polygon {
    pub points: Vec<Point3>,
}

/// A boundary message: a polygon together with the metadata that places it
/// in a frame and in time. Immutable once constructed; a new arrival
/// replaces it wholesale.
#[derive(Debug)]
pub struct PolygonStamped {
    pub header: Header,
    pub polygon: Polygon,
}

/// A decoded configuration value is well formed when every row carries at
/// least the two planar coordinates.
pub open spec fn pairs_well_formed(pairs: Seq<Seq<u64>>) -> bool {
    forall|i: int| 0 <= i < pairs.len() ==> (#[trigger] pairs[i]).len() >= 2
}

/// The boundary points a well-formed configuration value describes: the
/// first two entries of each row, lifted to 3D with `z = 0`.
pub open spec fn points_of_pairs(pairs: Seq<Seq<u64>>) -> Seq<Point3> {
    Seq::new(pairs.len(), |i: int| Point3 { x: pairs[i][0], y: pairs[i][1], z: 0 })
}

/// Builds a polygon from a configuration value decoded as a list of
/// coordinate rows. A malformed value — any row with fewer than two entries —
/// yields no polygon at all rather than a partial one.
pub fn polygon_from_pairs(pairs: &Vec<Vec<u64>>) -> (r: Option<Polygon>)
    ensures
        pairs_well_formed(pairs.deep_view()) ==> (r matches Some(p) && p.points@
            == points_of_pairs(pairs.deep_view())),
        !pairs_well_formed(pairs.deep_view()) ==> r is None,
{
    let mut points: Vec<Point3> = Vec::new();
    let mut i: usize = 0;
    while i < pairs.len()
        invariant
            0 <= i <= pairs@.len(),
            points@.len() == i,
            forall|k: int| 0 <= k < i ==> pairs.deep_view()[k].len() >= 2,
            forall|k: int| 0 <= k < i ==> points@[k] == points_of_pairs(pairs.deep_view())[k],
        decreases pairs@.len() - i,
    {
        let row = &pairs[i];
        proof {
            assert(pairs.deep_view()[i as int] =~= row@);
        }
        if row.len() < 2 {
            proof {
                assert(!pairs_well_formed(pairs.deep_view()));
            }
            return None;
        }
        points.push(Point3 { x: row[0], y: row[1], z: 0 });
        i += 1;
    }
    proof {
        assert(pairs_well_formed(pairs.deep_view()));
        assert(points@ =~= points_of_pairs(pairs.deep_view()));
    }
    Some(Polygon { points })
}

/// Returns a copy of the boundary's point sequence, in order.
pub fn read_points(msg: &Polygon) -> (r: Vec<Point3>)
    ensures
        r@ == msg.points@,
{
    let mut points: Vec<Point3> = Vec::new();
    let mut i: usize = 0;
    while i < msg.points.len()
        invariant
            0 <= i <= msg.points@.len(),
            points@.len() == i,
            forall|k: int| 0 <= k < i ==> points@[k] == msg.points@[k],
        decreases msg.points@.len() - i,
    {
        points.push(msg.points[i]);
        i += 1;
    }
    proof {
        assert(points@ =~= msg.points@);
    }
    points
}

} // verus!
