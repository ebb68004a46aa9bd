use vstd::prelude::*;
use crate::point::{coord_fits, euclid_div, fits_i32, CanvasPoint};

verus! {

/// Canvas units per viewport pixel at zoom 1. Canvas coordinates are fixed
/// point with this many units to the pixel, so that a viewport pixel maps to
/// a whole number of canvas units at every zoom `SUBPIXELS / u` for a nonzero
/// integer `u`: zoom 1, 2, 3, ... 10, 12, ... in, any amount out.
pub const SUBPIXELS: i32 = 2520;

/// The pan offset and the zoom through which the canvas is seen. The zoom is
/// kept as `units_per_pixel`, the canvas units that one viewport pixel
/// spans: the zoom factor is `SUBPIXELS / units_per_pixel`, never zero. A
/// negative value mirrors the view.
#[derive(Clone, Copy, Debug, PartialEq)]
pub struct CameraState {
    canvas_position: CanvasPoint,
    units_per_pixel: i32,
}

pub enum CameraStateAction {
    /// Takes the camera's state again, unchanged.
    Refresh,
    /// Pans to `temp_canvas_position + offset`, where `temp_canvas_position`
    /// is the pan captured when the drag began.
    MoveCamera { temp_canvas_position: CanvasPoint, offset: CanvasPoint },
}

/// `p / zoom - pan`, componentwise, in canvas units: with the zoom
/// `SUBPIXELS / u`, a viewport pixel is `u` canvas units.
pub open spec fn spec_viewport_to_global(pan: CanvasPoint, u: i32, p: CanvasPoint) -> (int, int) {
    (p.x * u - pan.x, p.y * u - pan.y)
}

/// `(g + pan) * zoom`, componentwise: the canvas units divided by `u`
/// (Euclidean division, so rounded down for a positive `u`).
pub open spec fn spec_global_to_viewport(pan: CanvasPoint, u: i32, g: CanvasPoint) -> (int, int) {
    ((g.x + pan.x) / (u as int), (g.y + pan.y) / (u as int))
}

pub open spec fn pair_fits(v: (int, int)) -> bool {
    coord_fits(v.0) && coord_fits(v.1)
}

impl CameraState {
    #[verifier::type_invariant]
    spec fn zoom_valid(self) -> bool {
        self.units_per_pixel != 0
    }

    pub closed spec fn spec_canvas_position(self) -> CanvasPoint {
        self.canvas_position
    }

    /// Canvas units per viewport pixel; the zoom is `SUBPIXELS` over it.
    pub closed spec fn spec_units_per_pixel(self) -> i32 {
        self.units_per_pixel
    }

    /// A camera with the given pan, zoomed to `SUBPIXELS / units_per_pixel`.
    pub fn new(canvas_position: CanvasPoint, units_per_pixel: i32) -> (r: CameraState)
        requires
            units_per_pixel != 0,
        ensures
            r.spec_canvas_position() == canvas_position,
            r.spec_units_per_pixel() == units_per_pixel,
    {
        CameraState { canvas_position, units_per_pixel }
    }

    /// Pan `(0, 0)` and zoom 1.
    pub fn default() -> (r: CameraState)
        ensures
            r.spec_canvas_position() == (CanvasPoint { x: 0, y: 0 }),
            r.spec_units_per_pixel() == SUBPIXELS,
    {
        CameraState { canvas_position: CanvasPoint { x: 0, y: 0 }, units_per_pixel: SUBPIXELS }
    }

    pub fn coord(&self) -> (r: (i32, i32, i32))
        ensures
            r == (
                self.spec_canvas_position().x,
                self.spec_canvas_position().y,
                self.spec_units_per_pixel(),
            ),
    {
        (self.canvas_position.x, self.canvas_position.y, self.units_per_pixel)
    }

    pub fn canvas_position(&self) -> (r: CanvasPoint)
        ensures
            r == self.spec_canvas_position(),
    {
        self.canvas_position
    }

    pub fn units_per_pixel(&self) -> (r: i32)
        ensures
            r == self.spec_units_per_pixel(),
            r != 0,
    {
        proof {
            use_type_invariant(self);
        }
        self.units_per_pixel
    }

    /// Whether the zoom could not be divided by; never, for a camera.
    pub fn zoom_invalid(&self) -> (r: bool)
        ensures
            r == (self.spec_units_per_pixel() == 0),
            !r,
    {
        proof {
            use_type_invariant(self);
        }
        self.units_per_pixel == 0
    }

    /// The zoom as the fraction `r.0 / r.1`.
    pub fn zoom(&self) -> (r: (i32, i32))
        ensures
            r == (SUBPIXELS, self.spec_units_per_pixel()),
            r.1 != 0,
    {
        proof {
            use_type_invariant(self);
        }
        (SUBPIXELS, self.units_per_pixel)
    }

    /// The canvas point under viewport point `p`, where it fits.
    pub open spec fn spec_to_global(self, p: CanvasPoint) -> CanvasPoint {
        let g = spec_viewport_to_global(self.spec_canvas_position(), self.spec_units_per_pixel(), p);
        CanvasPoint { x: g.0 as i32, y: g.1 as i32 }
    }

    pub open spec fn viewport_to_global_fits(self, p: CanvasPoint) -> bool {
        pair_fits(spec_viewport_to_global(self.spec_canvas_position(), self.spec_units_per_pixel(), p))
    }

    pub open spec fn global_to_viewport_fits(self, g: CanvasPoint) -> bool {
        pair_fits(spec_global_to_viewport(self.spec_canvas_position(), self.spec_units_per_pixel(), g))
    }

    /// Whether `convert_viewport_to_global` can map `p`.
    pub fn can_convert_viewport_to_global(&self, p: CanvasPoint) -> (r: bool)
        ensures
            r == self.viewport_to_global_fits(p),
    {
        let (gx, gy) = self.viewport_to_global_wide(p);
        fits_i32(gx) && fits_i32(gy)
    }

    /// `p * u - pan` on 64 bits, where it cannot overflow.
    fn viewport_to_global_wide(&self, p: CanvasPoint) -> (r: (i64, i64))
        ensures
            (r.0 as int, r.1 as int) == spec_viewport_to_global(
                self.spec_canvas_position(),
                self.spec_units_per_pixel(),
                p,
            ),
    {
        let u: i64 = self.units_per_pixel as i64;
        let (x, y) = (p.x as i64, p.y as i64);
        assert(-0x4000_0000_0000_0000 <= x * u <= 0x4000_0000_0000_0000
            && -0x4000_0000_0000_0000 <= y * u <= 0x4000_0000_0000_0000) by (nonlinear_arith)
            requires
                -0x8000_0000 <= x <= 0x8000_0000,
                -0x8000_0000 <= y <= 0x8000_0000,
                -0x8000_0000 <= u <= 0x8000_0000,
        ;
        (x * u - self.canvas_position.x as i64, y * u - self.canvas_position.y as i64)
    }

    /// Maps a pointer position on the viewport to the canvas.
    pub fn convert_viewport_to_global(&self, other: CanvasPoint) -> (r: CanvasPoint)
        requires
            self.viewport_to_global_fits(other),
        ensures
            (r.x as int, r.y as int) == spec_viewport_to_global(
                self.spec_canvas_position(),
                self.spec_units_per_pixel(),
                other,
            ),
            r == self.spec_to_global(other),
    {
        let (gx, gy) = self.viewport_to_global_wide(other);
        CanvasPoint { x: gx as i32, y: gy as i32 }
    }

    /// Maps a canvas position to the viewport.
    pub fn convert_global_to_viewport(&self, other: CanvasPoint) -> (r: CanvasPoint)
        requires
            self.global_to_viewport_fits(other),
        ensures
            (r.x as int, r.y as int) == spec_global_to_viewport(
                self.spec_canvas_position(),
                self.spec_units_per_pixel(),
                other,
            ),
    {
        proof {
            use_type_invariant(self);
        }
        let u: i64 = self.units_per_pixel as i64;
        let vx = euclid_div(other.x as i64 + self.canvas_position.x as i64, u);
        let vy = euclid_div(other.y as i64 + self.canvas_position.y as i64, u);
        CanvasPoint { x: vx as i32, y: vy as i32 }
    }

    pub open spec fn action_fits(action: CameraStateAction) -> bool {
        match action {
            CameraStateAction::MoveCamera { temp_canvas_position, offset } => {
                &&& coord_fits(temp_canvas_position.x + offset.x)
                &&& coord_fits(temp_canvas_position.y + offset.y)
            },
            CameraStateAction::Refresh => true,
        }
    }

    /// The camera after `action`: a move pans to the captured base plus the
    /// offset, a refresh keeps everything. The zoom never changes.
    pub fn reduce(&self, action: CameraStateAction) -> (r: CameraState)
        requires
            Self::action_fits(action),
        ensures
            r.spec_units_per_pixel() == self.spec_units_per_pixel(),
            match action {
                CameraStateAction::MoveCamera { temp_canvas_position, offset } => {
                    &&& r.spec_canvas_position().x == temp_canvas_position.x + offset.x
                    &&& r.spec_canvas_position().y == temp_canvas_position.y + offset.y
                },
                CameraStateAction::Refresh => r.spec_canvas_position()
                    == self.spec_canvas_position(),
            },
    {
        proof {
            use_type_invariant(self);
        }
        match action {
            CameraStateAction::MoveCamera { temp_canvas_position, offset } => CameraState {
                canvas_position: temp_canvas_position.add(offset),
                units_per_pixel: self.units_per_pixel,
            },
            CameraStateAction::Refresh => CameraState {
                canvas_position: self.canvas_position,
                units_per_pixel: self.units_per_pixel,
            },
        }
    }
}

} // verus!
