//! The transform-and-cache pipeline.
//!
//! A [`PolygonData`] owns the last received boundary message, the configured
//! color and target ("static") frame, and a cache of computed segments. The
//! caller performs the transform lookup for the held message and hands the
//! outcome to [`PolygonData::update`]: either the boundary points mapped into
//! the static frame, or `None` for a failed lookup. A failed lookup always
//! clears the cache, so the renderer sees nothing rather than stale geometry.
//!
//! Two sources drive the pipeline, each owning its state behind a verified
//! reader/writer lock. A [`ParameterPolygon`] holds a boundary loaded once
//! from configuration and recomputes on every read; a [`PolygonListener`]
//! recomputes inside a stream handler and serves plain reads.

use vstd::prelude::*;

verus! {

use vstd::rwlock::{RwLock, RwLockPredicate};
use crate::geometry::{Color, Line, Point3, connect_points, segments_of};
use crate::geometry::lemma_segments_uniform_color;
use crate::message::{Header, Polygon, PolygonStamped, Time};

/// The shared polygon state: the last boundary message, the segment cache,
/// and the configuration the segments are computed under.
pub struct PolygonData {
    /// The last received boundary message, replaced wholesale on arrival.
    pub polygon_stamped_msg: Option<PolygonStamped>,
    /// The cached segments, absent until a successful update computes them.
    pub lines_in_static_frame: Option<Vec<Line>>,
    /// The color every computed segment carries.
    pub color: Color,
    /// The name of the target frame the caller maps boundary points into.
    pub static_frame: String,
}

/// The outcome of the caller's transform lookup, as a mathematical value:
/// the mapped points, or `None` for a failed lookup.
pub open spec fn mapped_view(mapped: Option<Vec<Point3>>) -> Option<Seq<Point3>> {
    match mapped {
        Some(pts) => Some(pts@),
        None => None,
    }
}

/// The segment cache as a mathematical value.
pub open spec fn cached_lines(d: PolygonData) -> Option<Seq<Line>> {
    match d.lines_in_static_frame {
        Some(lines) => Some(lines@),
        None => None,
    }
}

/// What a read of the state shows: the cached segments, or nothing while the
/// cache is absent.
pub open spec fn visible_lines(d: PolygonData) -> Seq<Line> {
    match cached_lines(d) {
        Some(lines) => lines,
        None => Seq::empty(),
    }
}

/// The cache an update leaves behind, from the held message and the lookup
/// outcome alone: absent without a message or after a failed lookup, and the
/// segments of the mapped points otherwise. The cache an update replaced
/// does not appear here — no mix of old and new data is possible.
pub open spec fn spec_update(
    msg: Option<PolygonStamped>,
    mapped: Option<Seq<Point3>>,
    c: Color,
) -> Option<Seq<Line>> {
    match mapped {
        Some(pts) => if msg is Some {
            Some(segments_of(pts, c))
        } else {
            None
        },
        None => None,
    }
}

/// What a read shows right after an update: [`spec_update`] with an absent
/// cache read as the empty sequence.
pub open spec fn lines_for(
    msg: Option<PolygonStamped>,
    mapped: Option<Seq<Point3>>,
    c: Color,
) -> Seq<Line> {
    match spec_update(msg, mapped, c) {
        Some(lines) => lines,
        None => Seq::empty(),
    }
}

/// Well-formedness of the shared state: the cache is never a mix of old and
/// new data — when present, it is exactly the segments of some point
/// sequence of the held message's length, in the configured color; and
/// without a message there is no cache.
pub open spec fn data_wf(d: PolygonData) -> bool {
    d.lines_in_static_frame matches Some(lines) ==> (d.polygon_stamped_msg matches Some(m) && (
    exists|pts: Seq<Point3>|
        pts.len() == m.polygon.points@.len() && lines@ == segments_of(pts, d.color)))
}

/// A failed transform lookup shows nothing: whatever message is held and
/// whatever was cached before, the lines visible after an update with a
/// failed lookup are empty.
pub proof fn lemma_failed_lookup_shows_nothing(msg: Option<PolygonStamped>, c: Color)
    ensures
        lines_for(msg, None, c) == Seq::<Line>::empty(),
{
}

impl PolygonData {
    /// Replaces the segment cache from the outcome of the caller's transform
    /// lookup for the held message: clears it, then, when a message is held
    /// and the lookup succeeded, stores one segment per adjacent pair of
    /// mapped points, in input order and in the configured color.
    pub fn update(&mut self, mapped: Option<Vec<Point3>>)
        requires
            mapped matches Some(pts) ==> old(self).polygon_stamped_msg matches Some(m) && pts@.len()
                == m.polygon.points@.len(),
        ensures
            final(self).polygon_stamped_msg == old(self).polygon_stamped_msg,
            final(self).color == old(self).color,
            final(self).static_frame == old(self).static_frame,
            cached_lines(*final(self)) == spec_update(
                old(self).polygon_stamped_msg,
                mapped_view(mapped),
                old(self).color,
            ),
            data_wf(*final(self)),
    {
        self.lines_in_static_frame = None;
        match mapped {
            Some(pts) => {
                let lines = connect_points(&pts, self.color);
                self.lines_in_static_frame = Some(lines);
            },
            None => {},
        }
    }

    /// Returns a copy of the cached segments, or an empty sequence while the
    /// cache is absent. Pure read, no side effect.
    pub fn get_lines(&self) -> (r: Vec<Line>)
        ensures
            r@ == visible_lines(*self),
    {
        match &self.lines_in_static_frame {
            Some(lines) => {
                let mut out: Vec<Line> = Vec::new();
                let mut i: usize = 0;
                while i < lines.len()
                    invariant
                        0 <= i <= lines@.len(),
                        out@.len() == i,
                        forall|k: int| 0 <= k < i ==> out@[k] == lines@[k],
                    decreases lines@.len() - i,
                {
                    out.push(lines[i]);
                    i += 1;
                }
                proof {
                    assert(out@ =~= lines@);
                }
                out
            },
            None => Vec::new(),
        }
    }
}

/// Lock invariant of a parameter-backed polygon: the color and the boundary
/// message are both fixed at construction, and the state stays well formed.
pub struct ParameterInv {
    pub color: Color,
    pub msg: Option<PolygonStamped>,
}

impl RwLockPredicate<PolygonData> for ParameterInv {
    open spec fn inv(self, v: PolygonData) -> bool {
        &&& v.color == self.color
        &&& v.polygon_stamped_msg == self.msg
        &&& data_wf(v)
    }
}

/// Lock invariant of a stream-backed polygon: the color is fixed at
/// construction and the state stays well formed; the message changes with
/// every delivery.
pub struct ListenerInv {
    pub color: Color,
}

impl RwLockPredicate<PolygonData> for ListenerInv {
    open spec fn inv(self, v: PolygonData) -> bool {
        &&& v.color == self.color
        &&& data_wf(v)
    }
}

/// A polygon loaded once from a configuration store. The boundary never
/// changes, but the transform between its frame and the static frame may, so
/// every read recomputes the cache under the exclusive lock.
pub struct ParameterPolygon {
    data: RwLock<PolygonData, ParameterInv>,
}

impl ParameterPolygon {
    /// The color fixed at construction.
    pub closed spec fn color(&self) -> Color {
        self.data.pred().color
    }

    /// The boundary message fixed at construction, if configuration yielded
    /// one.
    pub closed spec fn msg(&self) -> Option<PolygonStamped> {
        self.data.pred().msg
    }

    /// Builds the source from a configuration polygon, if one was decoded.
    /// A missing or malformed configuration value (`polygon == None`) is not
    /// fatal: the source exists and shows no geometry. A decoded polygon is
    /// wrapped in a boundary message with the configured frame and the given
    /// timestamp.
    pub fn new(
        polygon: Option<Polygon>,
        frame_id: String,
        stamp: Time,
        color: Color,
        static_frame: String,
    ) -> (s: Self)
        ensures
            s.color() == color,
            polygon matches Some(p) ==> s.msg() matches Some(m) && m.header.seq == 0
                && m.header.stamp == stamp && m.header.frame_id == frame_id && m.polygon == p,
            polygon is None ==> s.msg() is None,
    {
        let msg = match polygon {
            Some(p) => Some(
                PolygonStamped { header: Header { seq: 0, stamp, frame_id }, polygon: p },
            ),
            None => None,
        };
        let ghost pinned = msg;
        let data = PolygonData {
            polygon_stamped_msg: msg,
            lines_in_static_frame: None,
            color,
            static_frame,
        };
        ParameterPolygon { data: RwLock::new(data, Ghost(ParameterInv { color, msg: pinned })) }
    }

    /// Recomputes the cache from the outcome of the caller's transform
    /// lookup for the held message, then returns the fresh segments: empty
    /// without a message or after a failed lookup, and one segment per
    /// adjacent pair of mapped points otherwise, in input order and in the
    /// configured color.
    pub fn get_lines(&self, mapped: Option<Vec<Point3>>) -> (r: Vec<Line>)
        requires
            mapped matches Some(pts) ==> self.msg() matches Some(m) && pts@.len()
                == m.polygon.points@.len(),
        ensures
            r@ == lines_for(self.msg(), mapped_view(mapped), self.color()),
    {
        let (mut data, handle) = self.data.acquire_write();
        data.update(mapped);
        let r = data.get_lines();
        handle.release_write(data);
        r
    }
}

/// A polygon fed by a live stream. The transport invokes
/// [`PolygonListener::handle_message`] once per delivered message;
/// [`PolygonListener::get_lines`] serves whatever the most recent delivery
/// cached, under a shared read lock, and never itself recomputes.
pub struct PolygonListener {
    data: RwLock<PolygonData, ListenerInv>,
}

impl PolygonListener {
    /// The color fixed at construction.
    pub closed spec fn color(&self) -> Color {
        self.data.pred().color
    }

    /// Builds the source with no boundary yet: it shows no geometry until
    /// the first delivery.
    pub fn new(color: Color, static_frame: String) -> (s: Self)
        ensures
            s.color() == color,
    {
        let data = PolygonData {
            polygon_stamped_msg: None,
            lines_in_static_frame: None,
            color,
            static_frame,
        };
        PolygonListener { data: RwLock::new(data, Ghost(ListenerInv { color })) }
    }

    /// One stream delivery: under the exclusive lock, replaces the held
    /// message with the delivered one and recomputes the cache from the
    /// outcome of the caller's transform lookup for it. The replaced
    /// message and the replaced cache are fully discarded.
    pub fn handle_message(&self, msg: PolygonStamped, mapped: Option<Vec<Point3>>)
        requires
            mapped matches Some(pts) ==> pts@.len() == msg.polygon.points@.len(),
    {
        let (mut data, handle) = self.data.acquire_write();
        data.polygon_stamped_msg = Some(msg);
        data.update(mapped);
        handle.release_write(data);
    }

    /// Returns a copy of the segments the most recent delivery cached, under
    /// a shared read lock: either nothing, or the segments of some mapped
    /// point sequence, every one in the color fixed at construction.
    pub fn get_lines(&self) -> (r: Vec<Line>)
        ensures
            r@.len() == 0 || exists|pts: Seq<Point3>| r@ == segments_of(pts, self.color()),
            forall|i: int| 0 <= i < r@.len() ==> (#[trigger] r@[i]).color == self.color(),
    {
        let read_handle = self.data.acquire_read();
        let data = read_handle.borrow();
        let r = data.get_lines();
        proof {
            if cached_lines(*data) is Some {
                let m = data.polygon_stamped_msg->0;
                let pts = choose|pts: Seq<Point3>|
                    pts.len() == m.polygon.points@.len() && cached_lines(*data)->0 == segments_of(
                        pts,
                        data.color,
                    );
                assert(r@ == segments_of(pts, self.color()));
                lemma_segments_uniform_color(pts, self.color());
            }
        }
        read_handle.release_read();
        r
    }
}

} // verus!
