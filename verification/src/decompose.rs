//! The decomposition adapter: turning the trapezoids a sweep-line
//! trapezoidation of a rectilinear polygon yields into exact axis-aligned
//! rectangles. A trapezoid that is disordered or not itself an exact
//! rectangle is a contract violation by the caller (no sweep of a
//! rectilinear polygon yields one); the fallible entry point reports it,
//! the direct one excludes it by precondition.

use crate::geom::box_wf;
use crate::geom::spec_approx_eq;
use crate::geom::approx_eq;
use crate::geom::Box2D;
use crate::geom::Point;
use crate::geom::Trapezoid;
use vstd::prelude::*;

verus! {

/// Whether the trapezoid's sides are ordered as a sweep produces them:
/// top side above the bottom side, and each side's left end at or before
/// its right end.
pub open spec fn trapezoid_wf(t: Trapezoid) -> bool {
    &&& t.top <= t.bottom
    &&& t.top_left <= t.top_right
    &&& t.bottom_left <= t.bottom_right
}

/// Whether the trapezoid is an exact axis-aligned rectangle: its two
/// parallel sides are approximately equal in length and aligned, that
/// is, the left ends coincide and the right ends coincide.
pub open spec fn trapezoid_is_rectangle(t: Trapezoid) -> bool {
    spec_approx_eq(t.bottom_left as int, t.top_left as int)
        && spec_approx_eq(t.bottom_right as int, t.top_right as int)
}

/// The rectangle a rectangular trapezoid denotes: its top side gives the
/// horizontal extent, its two heights the vertical one.
pub open spec fn spec_rectangle_of(t: Trapezoid) -> Box2D {
    Box2D {
        min: (Point { x: t.top_left, y: t.top }),
        max: (Point { x: t.top_right, y: t.bottom }),
    }
}

/// The rectangles of a trapezoid sequence, converted one for one.
pub open spec fn spec_boxes(traps: Seq<Trapezoid>) -> Seq<Box2D> {
    traps.map_values(|t: Trapezoid| spec_rectangle_of(t))
}

/// A rectangle obtained from a well-formed rectangular trapezoid is
/// itself well formed, and spans exactly its source trapezoid's top side
/// horizontally and its two heights vertically.
pub proof fn lemma_rectangle_spans_trapezoid(t: Trapezoid)
    requires
        trapezoid_wf(t),
        trapezoid_is_rectangle(t),
    ensures
        box_wf(spec_rectangle_of(t)),
        spec_rectangle_of(t).min == (Point { x: t.top_left, y: t.top }),
        spec_rectangle_of(t).max == (Point { x: t.top_right, y: t.bottom }),
{
}

/// Every rectangle of a decomposition of well-formed rectangular
/// trapezoids is axis-aligned and well formed, and lies within the span
/// of the trapezoid it came from, hence within the extent of the swept
/// region.
pub proof fn lemma_boxes_within_extent(traps: Seq<Trapezoid>)
    requires
        forall|i: int| 0 <= i < traps.len() ==> trapezoid_wf(#[trigger] traps[i]),
        forall|i: int| 0 <= i < traps.len() ==> trapezoid_is_rectangle(#[trigger] traps[i]),
    ensures
        spec_boxes(traps).len() == traps.len(),
        forall|i: int| 0 <= i < traps.len() ==> box_wf(#[trigger] spec_boxes(traps)[i]),
        forall|i: int|
            0 <= i < traps.len() ==> (#[trigger] spec_boxes(traps)[i]) == (Box2D {
                min: (Point { x: traps[i].top_left, y: traps[i].top }),
                max: (Point { x: traps[i].top_right, y: traps[i].bottom }),
            }),
{
    assert forall|i: int| 0 <= i < traps.len() implies box_wf(#[trigger] spec_boxes(traps)[i])
        && spec_boxes(traps)[i] == (Box2D {
        min: (Point { x: traps[i].top_left, y: traps[i].top }),
        max: (Point { x: traps[i].top_right, y: traps[i].bottom }),
    }) by {
        assert(spec_boxes(traps)[i] == spec_rectangle_of(traps[i]));
        lemma_rectangle_spans_trapezoid(traps[i]);
    }
}

/// Convert one trapezoid into an axis-aligned rectangle. Succeeds if and
/// only if the trapezoid is an exact rectangle; no approximation or
/// snapping occurs.
pub fn rectangle_of(t: &Trapezoid) -> (r: Option<Box2D>)
    ensures
        r == if trapezoid_is_rectangle(*t) {
            Some(spec_rectangle_of(*t))
        } else {
            None::<Box2D>
        },
{
    if approx_eq(t.bottom_left, t.top_left) && approx_eq(t.bottom_right, t.top_right) {
        Some(
            Box2D {
                min: Point { x: t.top_left, y: t.top },
                max: Point { x: t.top_right, y: t.bottom },
            },
        )
    } else {
        None
    }
}

/// Whether the trapezoid's sides are ordered, as every trapezoid a sweep
/// yields is.
pub fn trapezoid_ordered(t: &Trapezoid) -> (r: bool)
    ensures
        r == trapezoid_wf(*t),
{
    t.top <= t.bottom && t.top_left <= t.top_right && t.bottom_left <= t.bottom_right
}

/// Get the rectangles making up a rectilinear path, from the trapezoids
/// its sweep-line trapezoidation yields. Every trapezoid must be ordered,
/// as a sweep yields them, and already an exact rectangle; callers that
/// cannot promise that pre-validate with [`try_boxes`], which reports the
/// offending case instead. Every rectangle returned is well formed.
pub fn boxes(trapezoids: &Vec<Trapezoid>) -> (r: Vec<Box2D>)
    requires
        forall|i: int| 0 <= i < trapezoids@.len() ==> trapezoid_wf(#[trigger] trapezoids@[i]),
        forall|i: int|
            0 <= i < trapezoids@.len() ==> trapezoid_is_rectangle(#[trigger] trapezoids@[i]),
    ensures
        r@ == spec_boxes(trapezoids@),
        forall|i: int| 0 <= i < r@.len() ==> box_wf(#[trigger] r@[i]),
{
    let mut r: Vec<Box2D> = Vec::new();
    let mut i: usize = 0;
    while i < trapezoids.len()
        invariant
            i <= trapezoids@.len(),
            forall|j: int| 0 <= j < trapezoids@.len() ==> trapezoid_wf(#[trigger] trapezoids@[j]),
            forall|j: int|
                0 <= j < trapezoids@.len() ==> trapezoid_is_rectangle(#[trigger] trapezoids@[j]),
            r@.len() == i,
            forall|j: int| 0 <= j < i ==> r@[j] == spec_rectangle_of(trapezoids@[j]),
            forall|j: int| 0 <= j < i ==> box_wf(#[trigger] r@[j]),
        decreases trapezoids@.len() - i,
    {
        let b = rectangle_of(&trapezoids[i]);
        r.push(b.unwrap());
        i = i + 1;
    }
    assert(r@ =~= spec_boxes(trapezoids@));
    r
}

/// Get the rectangles making up a rectilinear path, from the trapezoids
/// its sweep-line trapezoidation yields, checking each conversion.
/// Returns `None` exactly when some trapezoid is disordered or not an
/// exact rectangle, the sign that the polygon the sweep was run on was
/// not rectilinear; otherwise every rectangle returned is well formed.
pub fn try_boxes(trapezoids: &Vec<Trapezoid>) -> (r: Option<Vec<Box2D>>)
    ensures
        r is Some <==> (forall|i: int|
            0 <= i < trapezoids@.len() ==> trapezoid_wf(#[trigger] trapezoids@[i])
                && trapezoid_is_rectangle(trapezoids@[i])),
        r matches Some(bs) ==> bs@ == spec_boxes(trapezoids@) && (forall|i: int|
            0 <= i < bs@.len() ==> box_wf(#[trigger] bs@[i])),
{
    let mut r: Vec<Box2D> = Vec::new();
    let mut i: usize = 0;
    while i < trapezoids.len()
        invariant
            i <= trapezoids@.len(),
            forall|j: int|
                0 <= j < i ==> trapezoid_wf(#[trigger] trapezoids@[j]) && trapezoid_is_rectangle(
                    trapezoids@[j],
                ),
            r@.len() == i,
            forall|j: int| 0 <= j < i ==> r@[j] == spec_rectangle_of(trapezoids@[j]),
            forall|j: int| 0 <= j < i ==> box_wf(#[trigger] r@[j]),
        decreases trapezoids@.len() - i,
    {
        if !trapezoid_ordered(&trapezoids[i]) {
            return None;
        }
        match rectangle_of(&trapezoids[i]) {
            Some(b) => r.push(b),
            None => {
                return None;
            },
        }
        i = i + 1;
    }
    assert(r@ =~= spec_boxes(trapezoids@));
    Some(r)
}

} // verus!
