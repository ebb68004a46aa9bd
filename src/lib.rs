//! Editing core of a 2D whiteboard: canvas points, a pan/zoom camera, a
//! catalog of shapes with its reducer, and the pointer gesture state machine.
//!
//! Coordinates are integers: viewport points in pixels, canvas points in
//! fixed-point units, `SUBPIXELS` of them to a pixel at zoom 1. The camera
//! keeps its zoom as the number of canvas units one pixel spans, so mapping
//! a viewport point to the canvas and back is exact. A circle keeps its
//! radius squared, so containment and overlap tests are exact too.
pub mod camera;
pub mod catalog;
pub mod gesture;
pub mod guid;
pub mod laws;
pub mod point;
pub mod point3d;
pub mod shape;
pub mod tool;

pub use camera::{CameraState, CameraStateAction, SUBPIXELS};
pub use catalog::{ShapeCatalog, ShapeCatalogAction};
pub use gesture::PointerState;
pub use guid::{Guid, GuidGenerator};
pub use point::{CanvasPoint, Point2D};
pub use point3d::Point3D;
pub use shape::{Circle, Freehand, Rectangle, Shape, ShapeView};
pub use tool::Tool;

use vstd::prelude::*;
use point::{box_between, box_fits, int_abs, int_min};

verus! {

/// The box that a drag from `p1` to `p2` spans: its low corner and its
/// (non-negative) extent.
pub fn get_box(p1: CanvasPoint, p2: CanvasPoint) -> (r: (CanvasPoint, CanvasPoint))
    requires
        box_fits(p1, p2),
    ensures
        r == box_between(p1, p2),
        r.0.x == int_min(p1.x as int, p2.x as int),
        r.0.y == int_min(p1.y as int, p2.y as int),
        r.1.x == int_abs(p2.x - p1.x),
        r.1.y == int_abs(p2.y - p1.y),
{
    (p1.min(p2), p2.sub(p1).abs())
}

} // verus!
