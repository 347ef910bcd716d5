//! The rectilinearity predicates: whether every straight segment of a path
//! or polygon is parallel to a coordinate axis.

use crate::geom::spec_approx_eq;
use crate::geom::approx_eq;
use crate::geom::Edge;
use crate::geom::Point;
use vstd::prelude::*;

verus! {

/// One instruction of a path's serialized event stream.
#[derive(Clone, Copy, Debug, PartialEq, Eq, Structural)]
pub enum PathEvent {
    /// Start of a subpath.
    Begin { at: Point },
    /// A straight segment.
    Line { from: Point, to: Point },
    /// A quadratic Bezier segment.
    Quadratic { from: Point, ctrl: Point, to: Point },
    /// A cubic Bezier segment.
    Cubic { from: Point, ctrl1: Point, ctrl2: Point, to: Point },
    /// End of a subpath; with `close` set it carries an implicit closing
    /// segment from `last` back to `first`.
    End { last: Point, first: Point, close: bool },
}

/// Whether the straight segment from `from` to `to` is parallel to an
/// axis: its difference vector has an approximately zero component.
/// A segment of approximately zero length trivially qualifies.
pub open spec fn segment_axis_aligned(from: Point, to: Point) -> bool {
    spec_approx_eq(to.x - from.x, 0) || spec_approx_eq(to.y - from.y, 0)
}

/// Whether a single path event is acceptable in a rectilinear path:
/// `Begin` and open `End` events carry no segment and always are; curve
/// events never are; `Line` events and closing `End` events are exactly
/// when their segment is axis-aligned.
pub open spec fn event_rectilinear(e: PathEvent) -> bool {
    match e {
        PathEvent::Begin { .. } => true,
        PathEvent::Quadratic { .. } => false,
        PathEvent::Cubic { .. } => false,
        PathEvent::Line { from, to } => segment_axis_aligned(from, to),
        PathEvent::End { last, first, close } => !close || segment_axis_aligned(first, last),
    }
}

/// Whether every event of the path is acceptable in a rectilinear path.
/// Vacuously true of the empty path.
pub open spec fn path_rectilinear(path: Seq<PathEvent>) -> bool {
    forall|i: int| 0 <= i < path.len() ==> event_rectilinear(path[i])
}

/// Whether a polygon edge is parallel to an axis: its direction vector
/// has an approximately zero component.
pub open spec fn edge_rectilinear(e: Edge) -> bool {
    spec_approx_eq(e.line.vector.y as int, 0) || spec_approx_eq(e.line.vector.x as int, 0)
}

/// Whether every edge of the polygon is parallel to an axis.
pub open spec fn polygon_rectilinear(polygon: Seq<Edge>) -> bool {
    forall|i: int| 0 <= i < polygon.len() ==> edge_rectilinear(polygon[i])
}

/// A path containing a curve event is never rectilinear: a single
/// `Quadratic` or `Cubic` event disqualifies the whole path.
pub proof fn lemma_curve_event_disqualifies(path: Seq<PathEvent>, i: int)
    requires
        0 <= i < path.len(),
        path[i] is Quadratic || path[i] is Cubic,
    ensures
        !path_rectilinear(path),
{
    assert(!event_rectilinear(path[i]));
}

/// A path consisting solely of `Begin` events and open `End` events
/// draws no segment at all, and is rectilinear.
pub proof fn lemma_begin_and_open_end_rectilinear(path: Seq<PathEvent>)
    requires
        forall|i: int|
            0 <= i < path.len() ==> (path[i] is Begin || (path[i] is End && !path[i]->End_close)),
    ensures
        path_rectilinear(path),
{
    assert forall|i: int| 0 <= i < path.len() implies event_rectilinear(path[i]) by {
        assert(path[i] is Begin || (path[i] is End && !path[i]->End_close));
    }
}

/// A path free of curve events whose every straight segment, the
/// implicit segment of a closing `End` included, is axis-aligned is
/// rectilinear.
pub proof fn lemma_axis_aligned_segments_rectilinear(path: Seq<PathEvent>)
    requires
        forall|i: int| 0 <= i < path.len() ==> !(path[i] is Quadratic) && !(path[i] is Cubic),
        forall|i: int|
            0 <= i < path.len() ==> ((#[trigger] path[i]) matches PathEvent::Line { from, to }
                ==> segment_axis_aligned(from, to)),
        forall|i: int|
            0 <= i < path.len() ==> ((#[trigger] path[i]) matches PathEvent::End {
                last,
                first,
                close,
            } ==> (close ==> segment_axis_aligned(first, last))),
    ensures
        path_rectilinear(path),
{
    assert forall|i: int| 0 <= i < path.len() implies event_rectilinear(path[i]) by {
        assert(!(path[i] is Quadratic) && !(path[i] is Cubic));
        assert(path[i] matches PathEvent::Line { from, to } ==> segment_axis_aligned(from, to));
        assert(path[i] matches PathEvent::End { last, first, close }
            ==> (close ==> segment_axis_aligned(first, last)));
    }
}

/// A path containing a straight segment whose difference vector has both
/// components beyond the tolerance is not rectilinear.
pub proof fn lemma_skew_line_disqualifies(path: Seq<PathEvent>, i: int)
    requires
        0 <= i < path.len(),
        path[i] matches PathEvent::Line { from, to } && !segment_axis_aligned(from, to),
    ensures
        !path_rectilinear(path),
{
    assert(!event_rectilinear(path[i]));
}

/// The `Line` event that draws a polygon edge: from the edge's origin to
/// the point its direction vector reaches.
pub open spec fn edge_event(e: Edge) -> PathEvent {
    PathEvent::Line {
        from: e.line.origin,
        to: Point {
            x: (e.line.origin.x + e.line.vector.x) as i64,
            y: (e.line.origin.y + e.line.vector.y) as i64,
        },
    }
}

/// The polygon form of the predicate agrees with the path form: an edge
/// passes the edge test exactly when the `Line` event drawn along it
/// passes the event test. The bounds keep the edge's far endpoint
/// representable.
pub proof fn lemma_edge_as_line_event(e: Edge)
    requires
        i64::MIN <= e.line.origin.x + e.line.vector.x <= i64::MAX,
        i64::MIN <= e.line.origin.y + e.line.vector.y <= i64::MAX,
    ensures
        edge_rectilinear(e) == event_rectilinear(edge_event(e)),
{
}

/// The polygon form of the predicate is the path form restricted to
/// straight edges: a polygon is rectilinear exactly when the path that
/// draws each of its edges as a `Line` event is. The bounds keep every
/// edge's far endpoint representable.
pub proof fn lemma_polygon_form_matches_path_form(polygon: Seq<Edge>)
    requires
        forall|i: int|
            0 <= i < polygon.len() ==> i64::MIN <= (#[trigger] polygon[i]).line.origin.x
                + polygon[i].line.vector.x <= i64::MAX,
        forall|i: int|
            0 <= i < polygon.len() ==> i64::MIN <= (#[trigger] polygon[i]).line.origin.y
                + polygon[i].line.vector.y <= i64::MAX,
    ensures
        polygon_rectilinear(polygon) == path_rectilinear(
            polygon.map_values(|e: Edge| edge_event(e)),
        ),
{
    let path = polygon.map_values(|e: Edge| edge_event(e));
    assert(path.len() == polygon.len());
    if polygon_rectilinear(polygon) {
        assert forall|i: int| 0 <= i < path.len() implies event_rectilinear(path[i]) by {
            assert(edge_rectilinear(polygon[i]));
            lemma_edge_as_line_event(polygon[i]);
        }
    } else {
        let i = choose|i: int| 0 <= i < polygon.len() && !edge_rectilinear(polygon[i]);
        lemma_edge_as_line_event(polygon[i]);
        assert(!event_rectilinear(path[i]));
    }
}

/// Whether one path event passes the rectilinearity test.
fn event_is_rectilinear(e: &PathEvent) -> (r: bool)
    ensures
        r == event_rectilinear(*e),
{
    match e {
        PathEvent::Begin { .. } => true,
        PathEvent::Quadratic { .. } => false,
        PathEvent::Cubic { .. } => false,
        PathEvent::Line { from, to } => approx_eq(to.x, from.x) || approx_eq(to.y, from.y),
        PathEvent::End { last, first, close } => {
            if *close {
                approx_eq(last.x, first.x) || approx_eq(last.y, first.y)
            } else {
                true
            }
        },
    }
}

/// Tell whether or not a path is rectilinear: every straight segment it
/// draws, the implicit segment of a closing `End` included, is parallel
/// to an axis, and it contains no curve event. The result is a function
/// of the event sequence alone, so evaluating the predicate twice on the
/// same input yields the same answer.
pub fn is_rectilinear(path: &Vec<PathEvent>) -> (r: bool)
    ensures
        r == path_rectilinear(path@),
{
    let mut i: usize = 0;
    while i < path.len()
        invariant
            i <= path@.len(),
            forall|j: int| 0 <= j < i ==> event_rectilinear(path@[j]),
        decreases path@.len() - i,
    {
        if !event_is_rectilinear(&path[i]) {
            return false;
        }
        i = i + 1;
    }
    true
}

/// Tell whether or not a polygon is rectilinear: every edge's direction
/// vector has an approximately zero component. The result is a function
/// of the edge sequence alone, so evaluating the predicate twice on the
/// same input yields the same answer.
pub fn is_polygon_rectilinear(polygon: &Vec<Edge>) -> (r: bool)
    ensures
        r == polygon_rectilinear(polygon@),
{
    let mut i: usize = 0;
    while i < polygon.len()
        invariant
            i <= polygon@.len(),
            forall|j: int| 0 <= j < i ==> edge_rectilinear(polygon@[j]),
        decreases polygon@.len() - i,
    {
        let e = &polygon[i];
        if !(approx_eq(e.line.vector.y, 0) || approx_eq(e.line.vector.x, 0)) {
            return false;
        }
        i = i + 1;
    }
    true
}

} // verus!
