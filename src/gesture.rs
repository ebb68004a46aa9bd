use vstd::prelude::*;
use crate::camera::{CameraState, CameraStateAction};
use crate::catalog::{
    all_move_fits, all_moved, all_with_selected, clicked_at, intersecting_selected, all_anchored,
    upserted, ShapeCatalog,
};
use crate::get_box;
use crate::guid::{Guid, GuidGenerator};
use crate::point::{box_between, box_fits, coord_fits, fits_i32, CanvasPoint};
use crate::tool::Tool;

verus! {

/// What one pointer gesture carries from event to event. A gesture runs
/// from a press (`pointer_down`) through moves to a release (`pointer_up`);
/// the camera and the catalog change only through their own operations.
#[derive(Clone, Copy, Debug, PartialEq)]
pub struct PointerState {
    /// Whether a press is in progress.
    pub pointer_down: bool,
    /// Where the press happened, in viewport coordinates.
    pub initial_drag: CanvasPoint,
    /// The camera pan when the hand drag began.
    pub temp_canvas_position: CanvasPoint,
    /// The shape that the current drawing gesture creates.
    pub active_shape: Option<Guid>,
    /// The marquee as origin and extent: the press point until the first
    /// move, then the dragged box on the canvas.
    pub selection_box: Option<(CanvasPoint, CanvasPoint)>,
    /// The last pointer position seen, for a cursor display.
    pub client_position: Option<(i32, i32)>,
}

pub open spec fn zero_point() -> CanvasPoint {
    CanvasPoint { x: 0, y: 0 }
}

/// `p2 - p1`, where it fits.
pub open spec fn drag_offset(p1: CanvasPoint, p2: CanvasPoint) -> CanvasPoint {
    CanvasPoint { x: (p2.x - p1.x) as i32, y: (p2.y - p1.y) as i32 }
}

impl PointerState {
    /// No gesture in progress.
    pub fn new() -> (r: PointerState)
        ensures
            !r.pointer_down,
            r.active_shape is None,
            r.selection_box is None,
            r.client_position is None,
            r.initial_drag == zero_point(),
            r.temp_canvas_position == zero_point(),
    {
        PointerState {
            pointer_down: false,
            initial_drag: CanvasPoint { x: 0, y: 0 },
            temp_canvas_position: CanvasPoint { x: 0, y: 0 },
            active_shape: None,
            selection_box: None,
            client_position: None,
        }
    }

    /// A press at viewport point `pointer` with `tool`. The hand remembers the
    /// camera pan; a drawing tool clears the selection and starts a shape
    /// under a fresh id; the select tool clicks at the canvas point and opens
    /// a marquee when that leaves some shape selected; the text tool clears
    /// the selection.
    pub fn pointer_down(
        &mut self,
        current_tool: Tool,
        pointer: CanvasPoint,
        camera: &CameraState,
        catalog: &mut ShapeCatalog,
        guids: &mut GuidGenerator,
    )
        requires
            old(catalog).wf(),
            camera.viewport_to_global_fits(pointer),
            current_tool.spec_draws_shape() ==> old(guids).spec_next() < u32::MAX,
        ensures
            final(catalog).wf(),
            final(self).pointer_down,
            final(self).initial_drag == pointer,
            final(self).client_position == old(self).client_position,
            match current_tool {
                Tool::Hand => {
                    &&& final(self).temp_canvas_position == camera.spec_canvas_position()
                    &&& final(self).active_shape == old(self).active_shape
                    &&& final(self).selection_box == old(self).selection_box
                    &&& final(catalog)@ == old(catalog)@
                    &&& *final(guids) == *old(guids)
                },
                Tool::Rect | Tool::Circle | Tool::Freehand => {
                    &&& final(self).temp_canvas_position == old(self).temp_canvas_position
                    &&& final(self).active_shape == Some(old(guids).spec_next())
                    &&& final(self).selection_box == old(self).selection_box
                    &&& final(guids).spec_next() == old(guids).spec_next() + 1
                    &&& upserted(
                        all_with_selected(old(catalog)@, false),
                        old(guids).spec_next(),
                        camera.spec_to_global(pointer),
                        zero_point(),
                        false,
                        current_tool,
                        final(catalog)@,
                    )
                },
                Tool::Select => {
                    &&& final(self).temp_canvas_position == old(self).temp_canvas_position
                    &&& final(self).active_shape == old(self).active_shape
                    &&& final(catalog)@ == clicked_at(
                        old(catalog)@,
                        camera.spec_to_global(pointer),
                    )
                    &&& final(self).selection_box == if exists|i: int|
                        0 <= i < final(catalog)@.len() && #[trigger] final(catalog)@[i].1.selected() {
                        Some((pointer, zero_point()))
                    } else {
                        old(self).selection_box
                    }
                    &&& *final(guids) == *old(guids)
                },
                Tool::Text => {
                    &&& final(self).temp_canvas_position == old(self).temp_canvas_position
                    &&& final(self).active_shape == old(self).active_shape
                    &&& final(self).selection_box == old(self).selection_box
                    &&& final(catalog)@ == all_with_selected(old(catalog)@, false)
                    &&& *final(guids) == *old(guids)
                },
            },
    {
        let global = camera.convert_viewport_to_global(pointer);
        self.initial_drag = pointer;
        self.pointer_down = true;
        match current_tool {
            Tool::Hand => {
                self.temp_canvas_position = camera.canvas_position();
            },
            Tool::Rect | Tool::Circle | Tool::Freehand => {
                catalog.unselect_all();
                let id = guids.next_guid();
                catalog.upsert_shape(id, global, CanvasPoint::new(0, 0), false, current_tool);
                self.active_shape = Some(id);
            },
            Tool::Select => {
                catalog.unselect_except_point(global);
                if catalog.any_selected() {
                    self.selection_box = Some((pointer, CanvasPoint::new(0, 0)));
                }
            },
            Tool::Text => {
                catalog.unselect_all();
            },
        }
    }

    /// The two canvas points of a drag to viewport point `pointer`: where the
    /// press happened and where the pointer is.
    pub open spec fn drag_ends(self, camera: CameraState, pointer: CanvasPoint) -> (
        CanvasPoint,
        CanvasPoint,
    ) {
        (camera.spec_to_global(self.initial_drag), camera.spec_to_global(pointer))
    }

    /// What a move to `pointer` needs: every coordinate it computes fits,
    /// and a drawing tool has its shape.
    pub open spec fn move_allowed(
        self,
        current_tool: Tool,
        pointer: CanvasPoint,
        camera: CameraState,
        catalog: ShapeCatalog,
    ) -> bool {
        let (p1, p2) = self.drag_ends(camera, pointer);
        let offset = drag_offset(p1, p2);
        self.pointer_down ==> {
            &&& camera.viewport_to_global_fits(self.initial_drag)
            &&& camera.viewport_to_global_fits(pointer)
            &&& coord_fits(p2.x - p1.x)
            &&& coord_fits(p2.y - p1.y)
            &&& box_fits(p1, p2)
            &&& catalog.wf()
            &&& current_tool.spec_draws_shape() ==> self.active_shape is Some
            &&& current_tool == Tool::Hand ==> coord_fits(self.temp_canvas_position.x + offset.x)
                && coord_fits(self.temp_canvas_position.y + offset.y)
            &&& current_tool == Tool::Select && self.selection_box is None ==> all_move_fits(
                catalog@,
                offset,
            )
        }
    }

    /// Whether `pointer_down` may take a press at `pointer` with `tool`.
    pub fn can_press(
        current_tool: Tool,
        pointer: CanvasPoint,
        camera: &CameraState,
        guids: &GuidGenerator,
    ) -> (r: bool)
        ensures
            r == (camera.viewport_to_global_fits(pointer) && (current_tool.spec_draws_shape()
                ==> guids.spec_next() < u32::MAX)),
    {
        camera.can_convert_viewport_to_global(pointer) && (!current_tool.draws_shape()
            || guids.peek() < u32::MAX)
    }

    /// Whether `pointer_move` may take a move to `pointer`.
    pub fn can_move(
        &self,
        current_tool: Tool,
        pointer: CanvasPoint,
        camera: &CameraState,
        catalog: &ShapeCatalog,
    ) -> (r: bool)
        requires
            catalog.wf(),
        ensures
            r == self.move_allowed(current_tool, pointer, *camera, *catalog),
    {
        if !self.pointer_down {
            return true;
        }
        if !camera.can_convert_viewport_to_global(self.initial_drag)
            || !camera.can_convert_viewport_to_global(pointer) {
            return false;
        }
        let p1 = camera.convert_viewport_to_global(self.initial_drag);
        let p2 = camera.convert_viewport_to_global(pointer);
        let dx: i64 = p2.x as i64 - p1.x as i64;
        let dy: i64 = p2.y as i64 - p1.y as i64;
        if dx < -(i32::MAX as i64) || dx > i32::MAX as i64 || dy < -(i32::MAX as i64) || dy
            > i32::MAX as i64 {
            return false;
        }
        let offset = CanvasPoint { x: dx as i32, y: dy as i32 };
        if current_tool.draws_shape() && self.active_shape.is_none() {
            return false;
        }
        match current_tool {
            Tool::Hand => fits_i32(self.temp_canvas_position.x as i64 + dx) && fits_i32(
                self.temp_canvas_position.y as i64 + dy,
            ),
            Tool::Select => self.selection_box.is_some() || catalog.move_fits(offset),
            _ => true,
        }
    }

    /// A move to viewport point `pointer`. It always records the position;
    /// during a press it drives the tool: the hand pans the camera from the
    /// pan captured at the press, a drawing tool redraws its shape from the
    /// press to here, the select tool updates the marquee and its selection
    /// or, with no marquee, drags the selection by the offset since the press.
    pub fn pointer_move(
        &mut self,
        current_tool: Tool,
        pointer: CanvasPoint,
        camera: &mut CameraState,
        catalog: &mut ShapeCatalog,
    )
        requires
            old(self).move_allowed(current_tool, pointer, *old(camera), *old(catalog)),
        ensures
            final(self).client_position == Some((pointer.x, pointer.y)),
            final(self).pointer_down == old(self).pointer_down,
            final(self).initial_drag == old(self).initial_drag,
            final(self).temp_canvas_position == old(self).temp_canvas_position,
            final(self).active_shape == old(self).active_shape,
            old(self).pointer_down ==> final(catalog).wf(),
            !old(self).pointer_down ==> {
                &&& final(self).selection_box == old(self).selection_box
                &&& *final(camera) == *old(camera)
                &&& *final(catalog) == *old(catalog)
            },
            old(self).pointer_down ==> ({
                let (p1, p2) = old(self).drag_ends(*old(camera), pointer);
                let offset = drag_offset(p1, p2);
                let b = box_between(p1, p2);
                match current_tool {
                    Tool::Hand => {
                        &&& final(camera).spec_units_per_pixel() == old(camera).spec_units_per_pixel()
                        &&& final(camera).spec_canvas_position().x
                            == old(self).temp_canvas_position.x + offset.x
                        &&& final(camera).spec_canvas_position().y
                            == old(self).temp_canvas_position.y + offset.y
                        &&& final(self).selection_box == old(self).selection_box
                        &&& *final(catalog) == *old(catalog)
                    },
                    Tool::Rect => {
                        &&& *final(camera) == *old(camera)
                        &&& final(self).selection_box == old(self).selection_box
                        &&& upserted(
                            old(catalog)@,
                            old(self).active_shape->0,
                            b.0,
                            b.1,
                            false,
                            current_tool,
                            final(catalog)@,
                        )
                    },
                    Tool::Circle => {
                        &&& *final(camera) == *old(camera)
                        &&& final(self).selection_box == old(self).selection_box
                        &&& upserted(
                            old(catalog)@,
                            old(self).active_shape->0,
                            p1,
                            p2,
                            false,
                            current_tool,
                            final(catalog)@,
                        )
                    },
                    Tool::Freehand => {
                        &&& *final(camera) == *old(camera)
                        &&& final(self).selection_box == old(self).selection_box
                        &&& upserted(
                            old(catalog)@,
                            old(self).active_shape->0,
                            p2,
                            zero_point(),
                            false,
                            current_tool,
                            final(catalog)@,
                        )
                    },
                    Tool::Select => {
                        &&& *final(camera) == *old(camera)
                        &&& old(self).selection_box is Some ==> {
                            &&& final(self).selection_box == Some(b)
                            &&& final(catalog)@ == intersecting_selected(old(catalog)@, b)
                        }
                        &&& old(self).selection_box is None ==> {
                            &&& final(self).selection_box is None
                            &&& final(catalog)@ == all_moved(old(catalog)@, offset)
                        }
                    },
                    Tool::Text => {
                        &&& *final(camera) == *old(camera)
                        &&& final(self).selection_box == old(self).selection_box
                        &&& *final(catalog) == *old(catalog)
                    },
                }
            }),
    {
        self.client_position = Some((pointer.x, pointer.y));
        if !self.pointer_down {
            return;
        }
        let p1 = camera.convert_viewport_to_global(self.initial_drag);
        let p2 = camera.convert_viewport_to_global(pointer);
        let offset = p2.sub(p1);
        let b = get_box(p1, p2);
        match current_tool {
            Tool::Hand => {
                let moved = camera.reduce(
                    CameraStateAction::MoveCamera {
                        temp_canvas_position: self.temp_canvas_position,
                        offset,
                    },
                );
                *camera = moved;
            },
            Tool::Rect => {
                let id = self.active_shape.unwrap();
                catalog.upsert_shape(id, b.0, b.1, false, current_tool);
            },
            Tool::Circle => {
                let id = self.active_shape.unwrap();
                catalog.upsert_shape(id, p1, p2, false, current_tool);
            },
            Tool::Freehand => {
                let id = self.active_shape.unwrap();
                catalog.upsert_shape(id, p2, CanvasPoint::new(0, 0), false, current_tool);
            },
            Tool::Select => {
                if self.selection_box.is_some() {
                    self.selection_box = Some(b);
                    catalog.select_intersecting(b);
                } else {
                    catalog.upsert_selected_shapes(offset);
                }
            },
            Tool::Text => {},
        }
    }

    /// A release: the press ends. The hand takes the camera pan as the base
    /// of its next drag; a drawing tool lets go of its shape and the select
    /// tool closes the marquee, and both record the selection's positions as
    /// drag anchors.
    pub fn pointer_up(&mut self, current_tool: Tool, camera: &CameraState, catalog: &mut ShapeCatalog)
        requires
            old(catalog).wf(),
        ensures
            final(catalog).wf(),
            !final(self).pointer_down,
            final(self).initial_drag == old(self).initial_drag,
            final(self).client_position == old(self).client_position,
            match current_tool {
                Tool::Hand => {
                    &&& final(self).temp_canvas_position == camera.spec_canvas_position()
                    &&& final(self).active_shape == old(self).active_shape
                    &&& final(self).selection_box == old(self).selection_box
                    &&& final(catalog)@ == old(catalog)@
                },
                Tool::Rect | Tool::Circle | Tool::Freehand => {
                    &&& final(self).temp_canvas_position == old(self).temp_canvas_position
                    &&& final(self).active_shape is None
                    &&& final(self).selection_box == old(self).selection_box
                    &&& final(catalog)@ == all_anchored(old(catalog)@)
                },
                Tool::Select => {
                    &&& final(self).temp_canvas_position == old(self).temp_canvas_position
                    &&& final(self).active_shape == old(self).active_shape
                    &&& final(self).selection_box is None
                    &&& final(catalog)@ == all_anchored(old(catalog)@)
                },
                Tool::Text => {
                    &&& final(self).temp_canvas_position == old(self).temp_canvas_position
                    &&& final(self).active_shape == old(self).active_shape
                    &&& final(self).selection_box == old(self).selection_box
                    &&& final(catalog)@ == old(catalog)@
                },
            },
    {
        self.pointer_down = false;
        match current_tool {
            Tool::Hand => {
                self.temp_canvas_position = camera.canvas_position();
            },
            Tool::Rect | Tool::Circle | Tool::Freehand => {
                self.active_shape = None;
                catalog.save_selected_ids();
            },
            Tool::Select => {
                self.selection_box = None;
                catalog.save_selected_ids();
            },
            Tool::Text => {},
        }
    }
}

} // verus!
