use editor::{CameraState, CameraStateAction, CanvasPoint, SUBPIXELS};

const S: i32 = SUBPIXELS;

fn pt(x: i32, y: i32) -> CanvasPoint {
    CanvasPoint::new(x, y)
}

/// The canvas point at `(x, y)` pixels of an unzoomed, unpanned view.
fn canvas(x: i32, y: i32) -> CanvasPoint {
    CanvasPoint::new(x * S, y * S)
}

#[test]
fn default_camera() {
    let c = CameraState::default();
    assert_eq!(c.canvas_position(), pt(0, 0));
    assert_eq!(c.zoom(), (S, S));
    assert_eq!(c.units_per_pixel(), S);
    assert_eq!(c.coord(), (0, 0, S));
    assert!(!c.zoom_invalid());
}

#[test]
fn zoom_two_maps_viewport_to_global() {
    let c = CameraState::new(pt(0, 0), S / 2);
    assert_eq!(c.zoom(), (2520, 1260));
    assert_eq!(c.convert_viewport_to_global(pt(20, 20)), canvas(10, 10));
    assert_eq!(c.convert_global_to_viewport(canvas(10, 10)), pt(20, 20));
}

#[test]
fn viewport_to_global_subtracts_pan() {
    let c = CameraState::new(pt(3, -4), S / 2);
    assert_eq!(c.convert_viewport_to_global(pt(21, 8)), pt(26457, 10084));
    assert_eq!(c.convert_viewport_to_global(pt(-3, -4)), pt(-3783, -5036));
    assert_eq!(c.convert_global_to_viewport(pt(26457, 10084)), pt(21, 8));
    assert_eq!(c.convert_global_to_viewport(pt(-3783, -5036)), pt(-3, -4));
}

#[test]
fn zoom_out_and_mirrored_zoom() {
    let out = CameraState::new(pt(0, 0), 2 * S);
    assert_eq!(out.convert_viewport_to_global(pt(10, 10)), canvas(20, 20));
    let mirrored = CameraState::new(pt(0, 0), -S);
    assert_eq!(mirrored.convert_viewport_to_global(pt(5, 7)), canvas(-5, -7));
    assert_eq!(mirrored.convert_global_to_viewport(canvas(-5, -7)), pt(5, 7));
}

#[test]
fn global_to_viewport_rounds_to_the_pixel() {
    let c = CameraState::new(pt(0, 0), S / 2);
    assert_eq!(c.convert_global_to_viewport(pt(1259, -1)), pt(0, -1));
    assert_eq!(c.convert_global_to_viewport(pt(1260, -1260)), pt(1, -1));
}

#[test]
fn round_trips() {
    for u in [S, S / 2, 2 * S, -S / 3, 7, 1, -1] {
        let c = CameraState::new(pt(5, -7), u);
        for x in -20..20 {
            for y in -20..20 {
                let p = pt(37 * x, 11 * y + 3);
                assert_eq!(c.convert_global_to_viewport(c.convert_viewport_to_global(p)), p);
                let g = pt(1001 * x + 17, 999 * y - 5);
                let h = c.convert_viewport_to_global(c.convert_global_to_viewport(g));
                assert!(0 <= g.x - h.x && g.x - h.x < u.abs());
                assert!(0 <= g.y - h.y && g.y - h.y < u.abs());
            }
        }
    }
}

#[test]
fn move_camera_from_captured_pan() {
    let c = CameraState::new(pt(1, 1), 4);
    let moved = c.reduce(CameraStateAction::MoveCamera {
        temp_canvas_position: pt(10, 20),
        offset: pt(5, -5),
    });
    assert_eq!(moved.canvas_position(), pt(15, 15));
    assert_eq!(moved.units_per_pixel(), 4);
    let again = moved.reduce(CameraStateAction::MoveCamera {
        temp_canvas_position: pt(10, 20),
        offset: pt(5, -5),
    });
    assert_eq!(again, moved);
    assert_eq!(c.reduce(CameraStateAction::Refresh), c);
}
