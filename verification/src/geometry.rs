//! Points, colors and line segments, and the one geometric step the library
//! performs itself: connecting consecutive points into segments.
//!
//! Coordinates are opaque 64-bit scalar codes (for instance IEEE-754 bit
//! patterns). Nothing here does arithmetic on them; they are copied from
//! points into segments unchanged, so every statement below is exact whatever
//! scalar encoding the caller uses.

use vstd::prelude::*;

verus! {

/// A symbolic color code. The renderer decides what the code means; the
/// library only guarantees that it is copied unchanged onto every segment.
#[derive(Clone, Copy, PartialEq, Eq, Structural, Debug)]
pub struct Color(pub u32);

/// A boundary point: three scalar codes. Source boundaries are 2D and carry
/// `z = 0`; the third coordinate exists because the rigid transform that the
/// caller applies acts in 3D.
#[derive(Clone, Copy, PartialEq, Eq, Structural, Debug)]
pub struct Point3 {
    pub x: u64,
    pub y: u64,
    pub z: u64,
}

/// A render-ready 2D line segment from `(x1, y1)` to `(x2, y2)`.
#[derive(Clone, Copy, PartialEq, Eq, Structural, Debug)]
pub struct Line {
    pub x1: u64,
    pub y1: u64,
    pub x2: u64,
    pub y2: u64,
    pub color: Color,
}

/// The segment connecting point `j` to point `j + 1` of `pts`, in color `c`.
pub open spec fn seg_at(pts: Seq<Point3>, c: Color, j: int) -> Line {
    Line { x1: pts[j].x, y1: pts[j].y, x2: pts[j + 1].x, y2: pts[j + 1].y, color: c }
}

/// The segments of a boundary: one per adjacent pair of points, in input
/// order. A boundary of one point or none yields no segments, and the last
/// point is never connected back to the first.
pub open spec fn segments_of(pts: Seq<Point3>, c: Color) -> Seq<Line> {
    if pts.len() <= 1 {
        Seq::empty()
    } else {
        Seq::new((pts.len() - 1) as nat, |j: int| seg_at(pts, c, j))
    }
}

/// Walks the points pairwise in order and emits one segment per adjacent
/// pair, each in the given color.
pub fn connect_points(points: &Vec<Point3>, color: Color) -> (r: Vec<Line>)
    ensures
        r@ == segments_of(points@, color),
{
    let mut lines: Vec<Line> = Vec::new();
    if points.len() <= 1 {
        proof {
            assert(lines@ =~= segments_of(points@, color));
        }
        return lines;
    }
    let mut i: usize = 1;
    while i < points.len()
        invariant
            1 <= i <= points@.len(),
            points@.len() >= 2,
            lines@.len() == i - 1,
            forall|j: int| 0 <= j < i - 1 ==> lines@[j] == seg_at(points@, color, j),
        decreases points@.len() - i,
    {
        let a = points[i - 1];
        let b = points[i];
        lines.push(Line { x1: a.x, y1: a.y, x2: b.x, y2: b.y, color });
        i += 1;
    }
    proof {
        assert(lines@ =~= segments_of(points@, color));
    }
    lines
}

/// A boundary of `n >= 1` points yields exactly `n - 1` segments, the `j`-th
/// connecting point `j` to point `j + 1`, in input order and in the given
/// color.
pub proof fn lemma_segments_connect_consecutive(pts: Seq<Point3>, c: Color)
    requires
        pts.len() >= 1,
    ensures
        segments_of(pts, c).len() == pts.len() - 1,
        forall|j: int| 0 <= j < pts.len() - 1 ==> #[trigger] segments_of(pts, c)[j] == seg_at(
            pts,
            c,
            j,
        ),
{
}

/// A boundary of one point or none yields no segments at all.
pub proof fn lemma_few_points_no_segments(pts: Seq<Point3>, c: Color)
    requires
        pts.len() <= 1,
    ensures
        segments_of(pts, c) == Seq::<Line>::empty(),
{
    assert(segments_of(pts, c) =~= Seq::<Line>::empty());
}

/// Every segment of one boundary carries the same color: the one it was
/// computed with, whatever the number of points.
pub proof fn lemma_segments_uniform_color(pts: Seq<Point3>, c: Color)
    ensures
        forall|j: int| 0 <= j < segments_of(pts, c).len() ==> (#[trigger] segments_of(
            pts,
            c,
        )[j]).color == c,
{
}

/// The polygon is never closed implicitly: unless some later input point
/// duplicates the planar coordinates of the first point, no segment ends at
/// the first point, so in particular none connects the last point back to it.
pub proof fn lemma_no_closing_segment(pts: Seq<Point3>, c: Color)
    requires
        pts.len() >= 2,
        forall|i: int| 1 <= i < pts.len() ==> !((#[trigger] pts[i]).x == pts[0].x && pts[i].y
            == pts[0].y),
    ensures
        forall|j: int| 0 <= j < segments_of(pts, c).len() ==> !((#[trigger] segments_of(
            pts,
            c,
        )[j]).x2 == pts[0].x && segments_of(pts, c)[j].y2 == pts[0].y),
{
    assert forall|j: int| 0 <= j < segments_of(pts, c).len() implies !((#[trigger] segments_of(
        pts,
        c,
    )[j]).x2 == pts[0].x && segments_of(pts, c)[j].y2 == pts[0].y) by {
        assert(segments_of(pts, c)[j] == seg_at(pts, c, j));
        assert(!(pts[j + 1].x == pts[0].x && pts[j + 1].y == pts[0].y));
    }
}

} // verus!
