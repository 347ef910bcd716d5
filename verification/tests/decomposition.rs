use rectiloafier::{
    approx_eq, boxes, is_polygon_rectilinear, rectangle_of, try_boxes, Box2D, Edge, Line, Point,
    Trapezoid, Vector,
};

fn pt(x: i64, y: i64) -> Point {
    Point { x, y }
}

fn edge(ox: i64, oy: i64, vx: i64, vy: i64) -> Edge {
    Edge { line: Line { origin: pt(ox, oy), vector: Vector { x: vx, y: vy } } }
}

fn trap(top: i64, bottom: i64, tl: i64, tr: i64, bl: i64, br: i64) -> Trapezoid {
    Trapezoid {
        top,
        bottom,
        top_left: tl,
        top_right: tr,
        bottom_left: bl,
        bottom_right: br,
    }
}

#[test]
fn approx_eq_is_strict_below_tolerance() {
    assert!(approx_eq(5, 5));
    assert!(!approx_eq(5, 6));
    assert!(!approx_eq(6, 5));
    assert!(approx_eq(i64::MAX, i64::MAX));
    assert!(!approx_eq(i64::MAX, i64::MIN));
}

#[test]
fn rectangle_of_exact_rectangle() {
    let t = trap(0, 2, 1, 4, 1, 4);
    assert_eq!(rectangle_of(&t), Some(Box2D { min: pt(1, 0), max: pt(4, 2) }));
}

#[test]
fn rectangle_of_degenerate_rectangle() {
    let flat = trap(2, 2, 0, 3, 0, 3);
    assert_eq!(rectangle_of(&flat), Some(Box2D { min: pt(0, 2), max: pt(3, 2) }));
    let thin = trap(0, 5, 1, 1, 1, 1);
    assert_eq!(rectangle_of(&thin), Some(Box2D { min: pt(1, 0), max: pt(1, 5) }));
}

#[test]
fn rectangle_of_slanted_trapezoid_fails() {
    assert_eq!(rectangle_of(&trap(0, 3, 0, 4, 0, 0)), None);
    assert_eq!(rectangle_of(&trap(0, 3, 0, 4, 1, 4)), None);
}

#[test]
fn boxes_of_no_trapezoids_is_empty() {
    let traps: Vec<Trapezoid> = vec![];
    assert_eq!(boxes(&traps), Vec::<Box2D>::new());
    assert_eq!(try_boxes(&traps), Some(Vec::new()));
}

#[test]
fn unit_square_yields_one_box() {
    let polygon = vec![
        edge(0, 0, 1, 0),
        edge(1, 0, 0, 1),
        edge(1, 1, -1, 0),
        edge(0, 1, 0, -1),
    ];
    assert!(is_polygon_rectilinear(&polygon));
    // The sweep of the unit square yields a single trapezoid spanning it.
    let traps = vec![trap(0, 1, 0, 1, 0, 1)];
    let r = boxes(&traps);
    assert_eq!(r, vec![Box2D { min: pt(0, 0), max: pt(1, 1) }]);
}

#[test]
fn l_shape_yields_exact_cover() {
    // (0,0),(2,0),(2,1),(1,1),(1,2),(0,2): rectilinear L-shape.
    let polygon = vec![
        edge(0, 0, 2, 0),
        edge(2, 0, 0, 1),
        edge(2, 1, -1, 0),
        edge(1, 1, 0, 1),
        edge(1, 2, -1, 0),
        edge(0, 2, 0, -2),
    ];
    assert!(is_polygon_rectilinear(&polygon));
    // Swept from top to bottom, the L-shape splits into a band of full
    // width above the notch and a narrower band below it.
    let traps = vec![trap(0, 1, 0, 2, 0, 2), trap(1, 2, 0, 1, 0, 1)];
    let r = boxes(&traps);
    assert_eq!(
        r,
        vec![
            Box2D { min: pt(0, 0), max: pt(2, 1) },
            Box2D { min: pt(0, 1), max: pt(1, 2) },
        ]
    );
    // The two rectangles tile the L-shape: they share only the boundary
    // line y = 1 and together span both bands exactly.
    assert_eq!(r[0].max.y, r[1].min.y);
    assert!(r[1].max.x <= r[0].max.x);
}

#[test]
fn non_rectilinear_shape_is_refused() {
    // Triangle (0,0), (4,0), (0,3): the sweep's trapezoid has a slanted
    // side, so the decomposition must refuse it rather than yield boxes.
    let polygon = vec![edge(0, 0, 4, 0), edge(4, 0, -4, 3), edge(0, 3, 0, -3)];
    assert!(!is_polygon_rectilinear(&polygon));
    let traps = vec![trap(0, 3, 0, 4, 0, 0)];
    assert_eq!(try_boxes(&traps), None);
}

#[test]
fn disordered_trapezoid_is_refused() {
    // A sweep never yields a trapezoid with its ends out of order; such
    // an input is refused rather than turned into a box with min above
    // max.
    let backwards = trap(0, 2, 4, 1, 4, 1);
    assert!(!rectiloafier::trapezoid_ordered(&backwards));
    assert_eq!(try_boxes(&vec![backwards]), None);
    let upside_down = trap(3, 0, 0, 4, 0, 4);
    assert_eq!(try_boxes(&vec![upside_down]), None);
}

#[test]
fn yielded_boxes_are_well_formed() {
    let traps = vec![trap(0, 1, 0, 1, 0, 1), trap(1, 1, 2, 2, 2, 2)];
    let r = try_boxes(&traps).unwrap();
    for b in &r {
        assert!(b.min.x <= b.max.x && b.min.y <= b.max.y);
    }
}

#[test]
fn one_bad_trapezoid_refuses_the_whole_decomposition() {
    let traps = vec![trap(0, 1, 0, 1, 0, 1), trap(1, 3, 0, 4, 0, 0)];
    assert_eq!(try_boxes(&traps), None);
}

#[test]
fn boxes_lie_within_their_trapezoids() {
    let traps = vec![trap(0, 1, 0, 2, 0, 2), trap(1, 2, 0, 1, 0, 1), trap(2, 7, 3, 9, 3, 9)];
    let r = try_boxes(&traps).unwrap();
    assert_eq!(r.len(), traps.len());
    for (b, t) in r.iter().zip(traps.iter()) {
        assert!(b.min.x <= b.max.x && b.min.y <= b.max.y);
        assert!(b.min.x >= t.top_left && b.max.x <= t.top_right);
        assert!(b.min.y >= t.top && b.max.y <= t.bottom);
    }
}
