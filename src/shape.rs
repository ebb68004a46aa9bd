use vstd::prelude::*;
use crate::point::{coord_fits, fits_i32, int_max, int_min, squared_norm, CanvasPoint};
use crate::tool::Tool;

verus! {

/// An axis-aligned rectangle given by its corner and its extent.
#[derive(Clone, Copy, Debug, PartialEq)]
pub struct Rectangle {
    pub position: CanvasPoint,
    pub width_height: CanvasPoint,
    pub selected: bool,
    /// Where the rectangle stood when the current drag began.
    pub temp_position: Option<CanvasPoint>,
}

impl Rectangle {
    pub fn new(p1: CanvasPoint, p2: CanvasPoint, selected: bool) -> (r: Rectangle)
        ensures
            r == (Rectangle { position: p1, width_height: p2, selected, temp_position: None }),
    {
        Rectangle { position: p1, width_height: p2, selected, temp_position: None }
    }

    /// `p` lies in the closed box from `position` to `position + width_height`.
    pub open spec fn spec_is_inside(self, p: CanvasPoint) -> bool {
        &&& self.position.x <= p.x <= self.position.x + self.width_height.x
        &&& self.position.y <= p.y <= self.position.y + self.width_height.y
    }

    /// The rectangle overlaps the box `(origin, extent)`: neither lies at or
    /// beyond the other's near corner on some axis.
    pub open spec fn spec_intersects(self, b: (CanvasPoint, CanvasPoint)) -> bool {
        !({
            ||| self.position.x + self.width_height.x <= b.0.x
            ||| self.position.y + self.width_height.y <= b.0.y
            ||| b.0.x + b.1.x <= self.position.x
            ||| b.0.y + b.1.y <= self.position.y
        })
    }

    pub fn is_inside(&self, global_pointer: CanvasPoint) -> (r: bool)
        ensures
            r == self.spec_is_inside(global_pointer),
    {
        let far_x: i64 = self.position.x as i64 + self.width_height.x as i64;
        let far_y: i64 = self.position.y as i64 + self.width_height.y as i64;
        self.position.x <= global_pointer.x && (global_pointer.x as i64) <= far_x
            && self.position.y <= global_pointer.y && (global_pointer.y as i64) <= far_y
    }

    pub fn intersects(&self, selection_box: (CanvasPoint, CanvasPoint)) -> (r: bool)
        ensures
            r == self.spec_intersects(selection_box),
    {
        let far_x: i64 = self.position.x as i64 + self.width_height.x as i64;
        let far_y: i64 = self.position.y as i64 + self.width_height.y as i64;
        let box_far_x: i64 = selection_box.0.x as i64 + selection_box.1.x as i64;
        let box_far_y: i64 = selection_box.0.y as i64 + selection_box.1.y as i64;
        !(far_x <= selection_box.0.x as i64 || far_y <= selection_box.0.y as i64
            || box_far_x <= self.position.x as i64 || box_far_y <= self.position.y as i64)
    }
}

/// A circle; the radius is kept squared so that it stays exact on the
/// integer grid.
#[derive(Clone, Copy, Debug, PartialEq)]
pub struct Circle {
    pub center: CanvasPoint,
    pub radius_squared: u128,
    pub selected: bool,
    /// Where the center stood when the current drag began.
    pub temp_center: Option<CanvasPoint>,
}

/// The point of the box `(origin, extent)` closest to `p`, one axis at a time.
pub open spec fn closest_in_box(v: int, origin: int, extent: int) -> int {
    int_min(int_max(v, origin), origin + extent)
}

impl Circle {
    pub fn new(center: CanvasPoint, radius_squared: u128, selected: bool) -> (r: Circle)
        ensures
            r == (Circle { center, radius_squared, selected, temp_center: None }),
    {
        Circle { center, radius_squared, selected, temp_center: None }
    }

    pub open spec fn spec_is_inside(self, p: CanvasPoint) -> bool {
        self.center.spec_distance_squared(p) <= self.radius_squared
    }

    /// The point of the box closest to the center is within the radius.
    pub open spec fn spec_intersects(self, b: (CanvasPoint, CanvasPoint)) -> bool {
        let dx = closest_in_box(self.center.x as int, b.0.x as int, b.1.x as int) - self.center.x;
        let dy = closest_in_box(self.center.y as int, b.0.y as int, b.1.y as int) - self.center.y;
        dx * dx + dy * dy <= self.radius_squared
    }

    pub fn is_inside(&self, global_pointer: CanvasPoint) -> (r: bool)
        ensures
            r == self.spec_is_inside(global_pointer),
    {
        self.center.euclid_dist_squared(global_pointer) <= self.radius_squared
    }

    pub fn intersects(&self, selection_box: (CanvasPoint, CanvasPoint)) -> (r: bool)
        ensures
            r == self.spec_intersects(selection_box),
    {
        let cx: i64 = self.center.x as i64;
        let cy: i64 = self.center.y as i64;
        let lo_x: i64 = selection_box.0.x as i64;
        let lo_y: i64 = selection_box.0.y as i64;
        let hi_x: i64 = lo_x + selection_box.1.x as i64;
        let hi_y: i64 = lo_y + selection_box.1.y as i64;
        let kx: i64 = if cx >= lo_x { cx } else { lo_x };
        let kx: i64 = if kx <= hi_x { kx } else { hi_x };
        let ky: i64 = if cy >= lo_y { cy } else { lo_y };
        let ky: i64 = if ky <= hi_y { ky } else { hi_y };
        squared_norm(kx - cx, ky - cy) <= self.radius_squared
    }
}

/// A freehand stroke: the points in the order they were drawn.
#[derive(Debug, PartialEq)]
pub struct Freehand {
    pub points: Vec<CanvasPoint>,
    pub selected: bool,
}

impl Freehand {
    pub fn new(point: CanvasPoint, selected: bool) -> (r: Freehand)
        ensures
            r.points@ == seq![point],
            r.selected == selected,
    {
        Freehand { points: vec![point], selected }
    }

    /// Strokes are not hit-tested against boxes: a marquee never takes one.
    pub fn intersects(&self, selection_box: (CanvasPoint, CanvasPoint)) -> (r: bool)
        ensures
            r == false,
    {
        false
    }
}

/// What a shape is, with a stroke's points as a sequence.
pub enum ShapeView {
    Rectangle(Rectangle),
    Circle(Circle),
    Freehand(Seq<CanvasPoint>, bool),
}

/// The point `anchor + offset`, where both sums fit.
pub open spec fn shifted(anchor: CanvasPoint, offset: CanvasPoint) -> CanvasPoint {
    CanvasPoint { x: (anchor.x + offset.x) as i32, y: (anchor.y + offset.y) as i32 }
}

pub open spec fn shift_fits(anchor: CanvasPoint, offset: CanvasPoint) -> bool {
    coord_fits(anchor.x + offset.x) && coord_fits(anchor.y + offset.y)
}

impl ShapeView {
    pub open spec fn selected(self) -> bool {
        match self {
            ShapeView::Rectangle(r) => r.selected,
            ShapeView::Circle(c) => c.selected,
            ShapeView::Freehand(_, s) => s,
        }
    }

    /// Point containment; strokes contain no point.
    pub open spec fn is_inside(self, p: CanvasPoint) -> bool {
        match self {
            ShapeView::Rectangle(r) => r.spec_is_inside(p),
            ShapeView::Circle(c) => c.spec_is_inside(p),
            ShapeView::Freehand(_, _) => false,
        }
    }

    /// Overlap with the box `(origin, extent)`; strokes overlap no box.
    pub open spec fn intersects(self, b: (CanvasPoint, CanvasPoint)) -> bool {
        match self {
            ShapeView::Rectangle(r) => r.spec_intersects(b),
            ShapeView::Circle(c) => c.spec_intersects(b),
            ShapeView::Freehand(_, _) => false,
        }
    }

    pub open spec fn with_selected(self, b: bool) -> ShapeView {
        match self {
            ShapeView::Rectangle(r) => ShapeView::Rectangle(Rectangle { selected: b, ..r }),
            ShapeView::Circle(c) => ShapeView::Circle(Circle { selected: b, ..c }),
            ShapeView::Freehand(p, _) => ShapeView::Freehand(p, b),
        }
    }

    /// A selected rectangle or circle records where it stands as its drag
    /// anchor; anything else is unchanged.
    pub open spec fn anchored(self) -> ShapeView {
        match self {
            ShapeView::Rectangle(r) => if r.selected {
                ShapeView::Rectangle(Rectangle { temp_position: Some(r.position), ..r })
            } else {
                self
            },
            ShapeView::Circle(c) => if c.selected {
                ShapeView::Circle(Circle { temp_center: Some(c.center), ..c })
            } else {
                self
            },
            ShapeView::Freehand(_, _) => self,
        }
    }

    /// Where a drag starts from: the recorded anchor, else the live position.
    pub open spec fn drag_base(self) -> Option<CanvasPoint> {
        match self {
            ShapeView::Rectangle(r) => Some(
                match r.temp_position {
                    Some(t) => t,
                    None => r.position,
                },
            ),
            ShapeView::Circle(c) => Some(
                match c.temp_center {
                    Some(t) => t,
                    None => c.center,
                },
            ),
            ShapeView::Freehand(_, _) => None,
        }
    }

    /// Moving this shape by `offset` stays on the coordinate range.
    pub open spec fn move_fits(self, offset: CanvasPoint) -> bool {
        self.selected() && self.drag_base() is Some ==> shift_fits(
            self.drag_base()->0,
            offset,
        )
    }

    /// A selected rectangle or circle goes to its drag base plus `offset`;
    /// the anchor itself is kept. Anything else is unchanged.
    pub open spec fn moved(self, offset: CanvasPoint) -> ShapeView {
        if !self.selected() {
            self
        } else {
            match self {
                ShapeView::Rectangle(r) => ShapeView::Rectangle(
                    Rectangle { position: shifted(self.drag_base()->0, offset), ..r },
                ),
                ShapeView::Circle(c) => ShapeView::Circle(
                    Circle { center: shifted(self.drag_base()->0, offset), ..c },
                ),
                ShapeView::Freehand(_, _) => self,
            }
        }
    }

    /// An existing shape redrawn by one pointer sample: a rectangle takes the
    /// corner and extent, a circle the center and the radius up to `size`
    /// (its far point), a stroke gets `position` appended.
    pub open spec fn upserted(self, position: CanvasPoint, size: CanvasPoint, selected: bool) -> ShapeView {
        match self {
            ShapeView::Rectangle(r) => ShapeView::Rectangle(
                Rectangle { position, width_height: size, selected, ..r },
            ),
            ShapeView::Circle(c) => ShapeView::Circle(
                Circle {
                    center: position,
                    radius_squared: position.spec_distance_squared(size) as u128,
                    selected,
                    ..c
                },
            ),
            ShapeView::Freehand(p, _) => ShapeView::Freehand(p.push(position), selected),
        }
    }
}

impl ShapeView {
    /// The given fields set: a rectangle's corner and extent, a circle's
    /// center, and the selection flag of any shape.
    pub open spec fn with_fields(
        self,
        position: Option<CanvasPoint>,
        width_height: Option<CanvasPoint>,
        selected: Option<bool>,
    ) -> ShapeView {
        match self {
            ShapeView::Rectangle(r) => ShapeView::Rectangle(
                Rectangle {
                    position: match position {
                        Some(p) => p,
                        None => r.position,
                    },
                    width_height: match width_height {
                        Some(w) => w,
                        None => r.width_height,
                    },
                    selected: match selected {
                        Some(b) => b,
                        None => r.selected,
                    },
                    ..r
                },
            ),
            ShapeView::Circle(c) => ShapeView::Circle(
                Circle {
                    center: match position {
                        Some(p) => p,
                        None => c.center,
                    },
                    selected: match selected {
                        Some(b) => b,
                        None => c.selected,
                    },
                    ..c
                },
            ),
            ShapeView::Freehand(p, s) => ShapeView::Freehand(
                p,
                match selected {
                    Some(b) => b,
                    None => s,
                },
            ),
        }
    }
}

/// The shape that a drawing tool starts at `position`.
pub open spec fn new_shape_view(tool: Tool, position: CanvasPoint, size: CanvasPoint, selected: bool) -> ShapeView {
    match tool {
        Tool::Circle => ShapeView::Circle(
            Circle { center: position, radius_squared: 0, selected, temp_center: None },
        ),
        Tool::Freehand => ShapeView::Freehand(seq![position], selected),
        _ => ShapeView::Rectangle(
            Rectangle { position, width_height: size, selected, temp_position: None },
        ),
    }
}

#[derive(Debug, PartialEq)]
pub enum Shape {
    Rectangle(Rectangle),
    Circle(Circle),
    Freehand(Freehand),
}

impl View for Shape {
    type V = ShapeView;

    open spec fn view(&self) -> ShapeView {
        match self {
            Shape::Rectangle(r) => ShapeView::Rectangle(*r),
            Shape::Circle(c) => ShapeView::Circle(*c),
            Shape::Freehand(f) => ShapeView::Freehand(f.points@, f.selected),
        }
    }
}

impl Shape {
    /// The shape that `tool` starts drawing at `position`.
    pub fn from_tool(tool: Tool, position: CanvasPoint, size: CanvasPoint, selected: bool) -> (r: Shape)
        requires
            tool.spec_draws_shape(),
        ensures
            r@ == new_shape_view(tool, position, size, selected),
    {
        match tool {
            Tool::Circle => Shape::Circle(Circle::new(position, 0, selected)),
            Tool::Freehand => Shape::Freehand(Freehand::new(position, selected)),
            _ => Shape::Rectangle(Rectangle::new(position, size, selected)),
        }
    }

    pub fn selected(&self) -> (r: bool)
        ensures
            r == self@.selected(),
    {
        match self {
            Shape::Rectangle(r) => r.selected,
            Shape::Circle(c) => c.selected,
            Shape::Freehand(f) => f.selected,
        }
    }

    pub fn is_inside(&self, global_pointer: CanvasPoint) -> (r: bool)
        ensures
            r == self@.is_inside(global_pointer),
    {
        match self {
            Shape::Rectangle(r) => r.is_inside(global_pointer),
            Shape::Circle(c) => c.is_inside(global_pointer),
            Shape::Freehand(_) => false,
        }
    }

    pub fn intersects(&self, selection_box: (CanvasPoint, CanvasPoint)) -> (r: bool)
        ensures
            r == self@.intersects(selection_box),
    {
        match self {
            Shape::Rectangle(r) => r.intersects(selection_box),
            Shape::Circle(c) => c.intersects(selection_box),
            Shape::Freehand(f) => f.intersects(selection_box),
        }
    }

    pub fn set_selected(&mut self, b: bool)
        ensures
            final(self)@ == old(self)@.with_selected(b),
    {
        match self {
            Shape::Rectangle(r) => r.selected = b,
            Shape::Circle(c) => c.selected = b,
            Shape::Freehand(f) => f.selected = b,
        }
    }

    /// Records the live position of a selected shape as its drag anchor.
    pub fn anchor(&mut self)
        ensures
            final(self)@ == old(self)@.anchored(),
    {
        match self {
            Shape::Rectangle(r) => {
                if r.selected {
                    r.temp_position = Some(r.position);
                }
            },
            Shape::Circle(c) => {
                if c.selected {
                    c.temp_center = Some(c.center);
                }
            },
            Shape::Freehand(_) => {},
        }
    }

    /// Whether moving this shape by `offset` stays on the coordinate range.
    pub fn move_fits(&self, offset: CanvasPoint) -> (r: bool)
        ensures
            r == self@.move_fits(offset),
    {
        let (selected, base) = match self {
            Shape::Rectangle(r) => (
                r.selected,
                match r.temp_position {
                    Some(t) => t,
                    None => r.position,
                },
            ),
            Shape::Circle(c) => (
                c.selected,
                match c.temp_center {
                    Some(t) => t,
                    None => c.center,
                },
            ),
            Shape::Freehand(_) => {
                return true;
            },
        };
        !selected || (fits_i32(base.x as i64 + offset.x as i64) && fits_i32(
            base.y as i64 + offset.y as i64,
        ))
    }

    /// Puts a selected shape at its drag base plus `offset`.
    pub fn move_from_anchor(&mut self, offset: CanvasPoint)
        requires
            old(self)@.move_fits(offset),
        ensures
            final(self)@ == old(self)@.moved(offset),
    {
        match self {
            Shape::Rectangle(r) => {
                if r.selected {
                    let base = match r.temp_position {
                        Some(t) => t,
                        None => r.position,
                    };
                    r.position = base.add(offset);
                }
            },
            Shape::Circle(c) => {
                if c.selected {
                    let base = match c.temp_center {
                        Some(t) => t,
                        None => c.center,
                    };
                    c.center = base.add(offset);
                }
            },
            Shape::Freehand(_) => {},
        }
    }

    /// Sets the given fields; see `ShapeView::with_fields`.
    pub fn update_fields(
        &mut self,
        position: Option<CanvasPoint>,
        width_height: Option<CanvasPoint>,
        selected: Option<bool>,
    )
        ensures
            final(self)@ == old(self)@.with_fields(position, width_height, selected),
    {
        match self {
            Shape::Rectangle(r) => {
                if let Some(p) = position {
                    r.position = p;
                }
                if let Some(w) = width_height {
                    r.width_height = w;
                }
                if let Some(b) = selected {
                    r.selected = b;
                }
            },
            Shape::Circle(c) => {
                if let Some(p) = position {
                    c.center = p;
                }
                if let Some(b) = selected {
                    c.selected = b;
                }
            },
            Shape::Freehand(f) => {
                if let Some(b) = selected {
                    f.selected = b;
                }
            },
        }
    }

    /// Redraws an existing shape from one pointer sample.
    pub fn upsert(&mut self, position: CanvasPoint, size: CanvasPoint, selected: bool)
        ensures
            final(self)@ == old(self)@.upserted(position, size, selected),
    {
        match self {
            Shape::Rectangle(r) => {
                r.position = position;
                r.width_height = size;
                r.selected = selected;
            },
            Shape::Circle(c) => {
                c.center = position;
                c.radius_squared = position.euclid_dist_squared(size);
                c.selected = selected;
            },
            Shape::Freehand(f) => {
                f.points.push(position);
                f.selected = selected;
            },
        }
    }
}

} // verus!
