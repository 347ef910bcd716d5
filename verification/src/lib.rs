//! Predicates and a decomposition adapter over 2D paths: deciding whether a
//! path or polygon is rectilinear (every straight segment parallel to an
//! axis), and turning the trapezoids a sweep-line decomposition yields into
//! exact axis-aligned rectangles.

pub mod decompose;
pub mod geom;
pub mod rectilinear;

pub use decompose::boxes;
pub use decompose::rectangle_of;
pub use decompose::trapezoid_ordered;
pub use decompose::try_boxes;
pub use rectilinear::is_polygon_rectilinear;
pub use rectilinear::is_rectilinear;
pub use rectilinear::PathEvent;
pub use geom::approx_eq;
pub use geom::Box2D;
pub use geom::Edge;
pub use geom::Line;
pub use geom::Point;
pub use geom::Trapezoid;
pub use geom::Vector;
pub use geom::EPSILON;
