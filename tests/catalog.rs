use editor::{CanvasPoint, Circle, Rectangle, Shape, ShapeCatalog, ShapeCatalogAction, Tool};

fn pt(x: i32, y: i32) -> CanvasPoint {
    CanvasPoint::new(x, y)
}

fn upsert(c: &mut ShapeCatalog, id: u32, position: CanvasPoint, size: CanvasPoint, tool: Tool) {
    c.reduce(ShapeCatalogAction::UpsertShape {
        id,
        position,
        width_height: size,
        selected: false,
        current_tool: tool,
    });
}

fn rect(c: &ShapeCatalog, id: u32) -> Rectangle {
    match c.get(id) {
        Some(Shape::Rectangle(r)) => *r,
        other => panic!("expected a rectangle, found {:?}", other),
    }
}

fn circle(c: &ShapeCatalog, id: u32) -> Circle {
    match c.get(id) {
        Some(Shape::Circle(r)) => *r,
        other => panic!("expected a circle, found {:?}", other),
    }
}

fn selected_ids(c: &ShapeCatalog) -> Vec<u32> {
    c.shapes()
        .iter()
        .filter(|(_, s)| match s {
            Shape::Rectangle(r) => r.selected,
            Shape::Circle(c) => c.selected,
            Shape::Freehand(f) => f.selected,
        })
        .map(|(id, _)| *id)
        .collect()
}

/// Two 10x10 squares: id 0 at (0, 0), id 1 at (100, 0).
fn two_squares() -> ShapeCatalog {
    let mut c = ShapeCatalog::new();
    upsert(&mut c, 0, pt(0, 0), pt(10, 10), Tool::Rect);
    upsert(&mut c, 1, pt(100, 0), pt(10, 10), Tool::Rect);
    c
}

#[test]
fn upsert_creates_then_redraws() {
    let mut c = ShapeCatalog::new();
    upsert(&mut c, 7, pt(1, 2), pt(0, 0), Tool::Rect);
    assert_eq!(c.len(), 1);
    assert_eq!(rect(&c, 7), Rectangle::new(pt(1, 2), pt(0, 0), false));
    upsert(&mut c, 7, pt(1, 2), pt(5, 6), Tool::Rect);
    assert_eq!(c.len(), 1);
    assert_eq!(rect(&c, 7), Rectangle::new(pt(1, 2), pt(5, 6), false));
}

#[test]
fn upsert_keeps_ids_in_order() {
    let mut c = ShapeCatalog::new();
    upsert(&mut c, 5, pt(0, 0), pt(1, 1), Tool::Rect);
    upsert(&mut c, 2, pt(0, 0), pt(1, 1), Tool::Circle);
    upsert(&mut c, 9, pt(0, 0), pt(1, 1), Tool::Freehand);
    let ids: Vec<u32> = c.shapes().iter().map(|(id, _)| *id).collect();
    assert_eq!(ids, vec![2, 5, 9]);
}

#[test]
fn upsert_circle_takes_radius_from_far_point() {
    let mut c = ShapeCatalog::new();
    upsert(&mut c, 0, pt(10, 10), pt(0, 0), Tool::Circle);
    assert_eq!(circle(&c, 0), Circle::new(pt(10, 10), 0, false));
    upsert(&mut c, 0, pt(10, 10), pt(13, 14), Tool::Circle);
    assert_eq!(circle(&c, 0).radius_squared, 25);
    assert_eq!(circle(&c, 0).center, pt(10, 10));
}

#[test]
fn upsert_freehand_appends_points() {
    let mut c = ShapeCatalog::new();
    upsert(&mut c, 0, pt(1, 1), pt(0, 0), Tool::Freehand);
    upsert(&mut c, 0, pt(2, 3), pt(0, 0), Tool::Freehand);
    upsert(&mut c, 0, pt(4, 4), pt(0, 0), Tool::Freehand);
    match c.get(0) {
        Some(Shape::Freehand(f)) => assert_eq!(f.points, vec![pt(1, 1), pt(2, 3), pt(4, 4)]),
        other => panic!("expected a stroke, found {:?}", other),
    }
}

#[test]
fn repeated_move_with_same_offset_is_idempotent() {
    let mut c = two_squares();
    c.reduce(ShapeCatalogAction::SelectAll);
    c.reduce(ShapeCatalogAction::SaveSelectedIds);
    c.reduce(ShapeCatalogAction::UpsertSelectedShapes { offset: pt(5, -3) });
    let once = (rect(&c, 0), rect(&c, 1));
    c.reduce(ShapeCatalogAction::UpsertSelectedShapes { offset: pt(5, -3) });
    assert_eq!((rect(&c, 0), rect(&c, 1)), once);
    assert_eq!(rect(&c, 0).position, pt(5, -3));
    assert_eq!(rect(&c, 1).position, pt(105, -3));
    // a later offset of the same drag starts from the anchor again
    c.reduce(ShapeCatalogAction::UpsertSelectedShapes { offset: pt(1, 1) });
    assert_eq!(rect(&c, 0).position, pt(1, 1));
}

#[test]
fn move_touches_only_selected_shapes() {
    let mut c = two_squares();
    upsert(&mut c, 2, pt(50, 50), pt(53, 54), Tool::Circle);
    c.reduce(ShapeCatalogAction::UnselectExceptPoint(pt(5, 5)));
    c.reduce(ShapeCatalogAction::SaveSelectedIds);
    c.reduce(ShapeCatalogAction::UpsertSelectedShapes { offset: pt(2, 2) });
    assert_eq!(rect(&c, 0).position, pt(2, 2));
    assert_eq!(rect(&c, 1).position, pt(100, 0));
    assert_eq!(circle(&c, 2).center, pt(50, 50));
}

#[test]
fn marquee_selection_is_not_additive() {
    let mut c = two_squares();
    c.reduce(ShapeCatalogAction::SelectIntersecting { selection_box: (pt(-5, -5), pt(20, 20)) });
    assert_eq!(selected_ids(&c), vec![0]);
    c.reduce(ShapeCatalogAction::SelectIntersecting { selection_box: (pt(95, -5), pt(20, 20)) });
    assert_eq!(selected_ids(&c), vec![1]);
}

#[test]
fn marquee_covering_both_then_one() {
    let mut c = two_squares();
    assert_eq!(selected_ids(&c), Vec::<u32>::new());
    c.reduce(ShapeCatalogAction::SelectIntersecting { selection_box: (pt(-1, -1), pt(120, 20)) });
    assert_eq!(selected_ids(&c), vec![0, 1]);
    c.reduce(ShapeCatalogAction::SelectIntersecting { selection_box: (pt(0, 0), pt(10, 10)) });
    assert_eq!(selected_ids(&c), vec![0]);
}

#[test]
fn click_replaces_selection() {
    let mut c = two_squares();
    c.reduce(ShapeCatalogAction::UnselectExceptPoint(pt(105, 5)));
    assert_eq!(selected_ids(&c), vec![1]);
    c.reduce(ShapeCatalogAction::UnselectExceptPoint(pt(5, 5)));
    assert_eq!(selected_ids(&c), vec![0]);
}

#[test]
fn click_on_selected_shape_keeps_selection() {
    let mut c = two_squares();
    c.reduce(ShapeCatalogAction::SelectAll);
    c.reduce(ShapeCatalogAction::UnselectExceptPoint(pt(5, 5)));
    assert_eq!(selected_ids(&c), vec![0, 1]);
}

#[test]
fn click_on_empty_canvas_unselects_all() {
    let mut c = two_squares();
    c.reduce(ShapeCatalogAction::SelectAll);
    assert!(c.any_selected());
    c.reduce(ShapeCatalogAction::UnselectExceptPoint(pt(50, 50)));
    assert_eq!(selected_ids(&c), Vec::<u32>::new());
    assert!(!c.any_selected());
}

#[test]
fn click_on_rectangle_border_selects_it() {
    let mut c = two_squares();
    c.reduce(ShapeCatalogAction::UnselectExceptPoint(pt(10, 10)));
    assert_eq!(selected_ids(&c), vec![0]);
    c.reduce(ShapeCatalogAction::UnselectExceptPoint(pt(100, 0)));
    assert_eq!(selected_ids(&c), vec![1]);
}

#[test]
fn delete_selected_removes_exactly_the_selection() {
    let mut c = ShapeCatalog::new();
    for i in 0..5 {
        upsert(&mut c, i, pt(20 * i as i32, 0), pt(10, 10), Tool::Rect);
    }
    c.reduce(ShapeCatalogAction::SelectIntersecting { selection_box: (pt(15, 0), pt(30, 5)) });
    assert_eq!(selected_ids(&c), vec![1, 2]);
    c.reduce(ShapeCatalogAction::DeleteSelected);
    assert_eq!(c.len(), 3);
    let ids: Vec<u32> = c.shapes().iter().map(|(id, _)| *id).collect();
    assert_eq!(ids, vec![0, 3, 4]);
    assert_eq!(rect(&c, 3).position, pt(60, 0));
}

#[test]
fn delete_previous_changes_nothing() {
    let mut c = two_squares();
    c.reduce(ShapeCatalogAction::SelectAll);
    c.reduce(ShapeCatalogAction::DeletePrevious);
    assert_eq!(c.len(), 2);
    assert_eq!(selected_ids(&c), vec![0, 1]);
}

#[test]
fn select_all_and_unselect_all() {
    let mut c = two_squares();
    c.select_all();
    assert_eq!(selected_ids(&c), vec![0, 1]);
    c.unselect_all();
    assert_eq!(selected_ids(&c), Vec::<u32>::new());
}

#[test]
fn save_selected_ids_records_anchors() {
    let mut c = two_squares();
    c.reduce(ShapeCatalogAction::UnselectExceptPoint(pt(1, 1)));
    c.reduce(ShapeCatalogAction::SaveSelectedIds);
    assert_eq!(rect(&c, 0).temp_position, Some(pt(0, 0)));
    assert_eq!(rect(&c, 1).temp_position, None);
}

#[test]
fn add_shape_and_update_shape() {
    let mut c = ShapeCatalog::new();
    let a = c.add_shape(Shape::Rectangle(Rectangle::new(pt(0, 0), pt(1, 1), false)));
    let b = c.add_shape(Shape::Rectangle(Rectangle::new(pt(5, 5), pt(1, 1), false)));
    assert_eq!((a, b), (0, 1));
    c.update_shape(b, Some(pt(7, 8)), None, Some(true));
    assert_eq!(rect(&c, 1), Rectangle::new(pt(7, 8), pt(1, 1), true));
    c.reduce(ShapeCatalogAction::DeleteSelected);
    let d = c.add_shape(Shape::Rectangle(Rectangle::new(pt(0, 0), pt(1, 1), false)));
    assert_eq!(d, 2);
    assert!(c.get(1).is_none());
}
