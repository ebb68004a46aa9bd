use vstd::prelude::*;
use crate::camera::{pair_fits, spec_global_to_viewport, spec_viewport_to_global};
use crate::catalog::{
    all_moved, clicked_at, intersecting_selected, is_selected, is_unselected, without_selected,
    CatalogView,
};
use crate::guid::Guid;
use crate::point::{int_abs, CanvasPoint};
use crate::shape::{Rectangle, ShapeView};

verus! {

/// Viewport to canvas and back is exact: every viewport point that the
/// camera can map comes back unchanged.
pub proof fn lemma_viewport_round_trip(pan: CanvasPoint, u: i32, p: CanvasPoint)
    requires
        u != 0,
        pair_fits(spec_viewport_to_global(pan, u, p)),
    ensures
        ({
            let g = spec_viewport_to_global(pan, u, p);
            spec_global_to_viewport(pan, u, CanvasPoint { x: g.0 as i32, y: g.1 as i32 }) == (
                p.x as int,
                p.y as int,
            )
        }),
{
    let ui = u as int;
    assert((p.x * ui) / ui == p.x as int) by (nonlinear_arith)
        requires
            ui != 0,
    ;
    assert((p.y * ui) / ui == p.y as int) by (nonlinear_arith)
        requires
            ui != 0,
    ;
}

/// Canvas to viewport and back lands on the canvas point that starts the
/// viewport pixel holding `g`: at most `|u| - 1` units before it, and on it
/// exactly when the pixel grid passes through `g`.
pub proof fn lemma_global_round_trip(pan: CanvasPoint, u: i32, g: CanvasPoint)
    requires
        u != 0,
        pair_fits(spec_global_to_viewport(pan, u, g)),
    ensures
        ({
            let v = spec_global_to_viewport(pan, u, g);
            let h = spec_viewport_to_global(pan, u, CanvasPoint { x: v.0 as i32, y: v.1 as i32 });
            &&& 0 <= g.x - h.0 < int_abs(u as int)
            &&& 0 <= g.y - h.1 < int_abs(u as int)
            &&& (g.x + pan.x) % (u as int) == 0 ==> h.0 == g.x
            &&& (g.y + pan.y) % (u as int) == 0 ==> h.1 == g.y
        }),
{
    let ui = u as int;
    let sx = g.x + pan.x;
    let sy = g.y + pan.y;
    assert(0 <= sx - (sx / ui) * ui < int_abs(ui) && (sx % ui == 0 ==> (sx / ui) * ui == sx))
        by (nonlinear_arith)
        requires
            ui != 0,
            int_abs(ui) == if ui >= 0 { ui } else { -ui },
    ;
    assert(0 <= sy - (sy / ui) * ui < int_abs(ui) && (sy % ui == 0 ==> (sy / ui) * ui == sy))
        by (nonlinear_arith)
        requires
            ui != 0,
            int_abs(ui) == if ui >= 0 { ui } else { -ui },
    ;
}

/// A selected rectangle or circle that carries a drag anchor.
pub open spec fn anchored_if_selected(v: ShapeView) -> bool {
    v.selected() ==> match v {
        ShapeView::Rectangle(r) => r.temp_position is Some,
        ShapeView::Circle(c) => c.temp_center is Some,
        ShapeView::Freehand(_, _) => true,
    }
}

/// Moving the selection by the same offset twice, once every selected shape
/// has its drag anchor, leaves it where moving once does.
pub proof fn lemma_move_twice_same_as_once(s: CatalogView, offset: CanvasPoint)
    requires
        forall|i: int| 0 <= i < s.len() ==> #[trigger] s[i].1.move_fits(offset),
        forall|i: int| 0 <= i < s.len() ==> anchored_if_selected(#[trigger] s[i].1),
    ensures
        all_moved(all_moved(s, offset), offset) == all_moved(s, offset),
{
    let once = all_moved(s, offset);
    assert forall|i: int| 0 <= i < s.len() implies #[trigger] once[i].1.moved(offset) == once[i].1 by {
        assert(s[i].1.move_fits(offset));
        assert(anchored_if_selected(s[i].1));
    }
    assert(all_moved(once, offset) =~= once);
}

/// Marquee selection forgets what was selected before: selecting with box
/// `a` and then with box `b` selects exactly the shapes that overlap `b`.
pub proof fn lemma_marquee_not_additive(
    s: CatalogView,
    a: (CanvasPoint, CanvasPoint),
    b: (CanvasPoint, CanvasPoint),
)
    ensures
        intersecting_selected(intersecting_selected(s, a), b) == intersecting_selected(s, b),
{
    let first = intersecting_selected(s, a);
    assert forall|i: int| 0 <= i < s.len() implies #[trigger] intersecting_selected(first, b)[i]
        == intersecting_selected(s, b)[i] by {
        assert(first[i].1.intersects(b) == s[i].1.intersects(b));
    }
    assert(intersecting_selected(first, b) =~= intersecting_selected(s, b));
}

/// A click on an unselected shape that is the only shape under the point
/// leaves exactly that shape selected, whatever was selected before.
pub proof fn lemma_click_replaces_selection(s: CatalogView, p: CanvasPoint, x: int)
    requires
        0 <= x < s.len(),
        s[x].1.is_inside(p),
        !s[x].1.selected(),
        forall|i: int| 0 <= i < s.len() && i != x ==> !#[trigger] s[i].1.is_inside(p),
    ensures
        clicked_at(s, p).len() == s.len(),
        forall|i: int| 0 <= i < s.len() ==> #[trigger] clicked_at(s, p)[i].1.selected() == (i == x),
        forall|i: int| 0 <= i < s.len() ==> #[trigger] clicked_at(s, p)[i].0 == s[i].0,
{
    assert(s[x].1.is_inside(p));
    assert(crate::catalog::freshly_hit(s[x].1, p));
}

/// Containment includes the border: the corner at `position`, the corner
/// at `position + width_height`, and every point on the four edges of a
/// rectangle with a non-negative extent.
pub proof fn lemma_rectangle_border_inside(r: Rectangle, p: CanvasPoint)
    requires
        r.width_height.x >= 0,
        r.width_height.y >= 0,
    ensures
        r.spec_is_inside(r.position),
        (p.x == r.position.x + r.width_height.x && p.y == r.position.y + r.width_height.y)
            ==> r.spec_is_inside(p),
        ((p.x == r.position.x || p.x == r.position.x + r.width_height.x) && r.position.y <= p.y
            <= r.position.y + r.width_height.y) ==> r.spec_is_inside(p),
        ((p.y == r.position.y || p.y == r.position.y + r.width_height.y) && r.position.x <= p.x
            <= r.position.x + r.width_height.x) ==> r.spec_is_inside(p),
{
}

proof fn lemma_split_count(s: CatalogView)
    ensures
        without_selected(s).len() + s.filter(|e: (Guid, ShapeView)| is_selected(e)).len()
            == s.len(),
    decreases s.len(),
{
    reveal(Seq::filter);
    if s.len() > 0 {
        lemma_split_count(s.drop_last());
    }
}

/// Deleting the selection removes exactly the selected shapes: as many
/// fewer entries as were selected, every unselected entry kept with its id,
/// and nothing in the result that was not an unselected entry before.
pub proof fn lemma_delete_selected_exact(s: CatalogView)
    ensures
        without_selected(s).len() == s.len() - s.filter(
            |e: (Guid, ShapeView)| is_selected(e),
        ).len(),
        forall|i: int|
            0 <= i < s.len() && !s[i].1.selected() ==> #[trigger] without_selected(s).contains(s[i]),
        forall|j: int|
            0 <= j < without_selected(s).len() ==> s.contains(#[trigger] without_selected(s)[j])
                && !without_selected(s)[j].1.selected(),
{
    lemma_split_count(s);
    let keep = |e: (Guid, ShapeView)| is_unselected(e);
    assert forall|i: int| 0 <= i < s.len() && !s[i].1.selected() implies #[trigger] without_selected(
        s,
    ).contains(s[i]) by {
        s.lemma_filter_contains(keep, i);
    }
    assert forall|j: int| 0 <= j < without_selected(s).len() implies s.contains(
        #[trigger] without_selected(s)[j],
    ) && !without_selected(s)[j].1.selected() by {
        s.lemma_filter_pred(keep, j);
        s.lemma_filter_contains_rev(keep, without_selected(s)[j]);
    }
}

} // verus!
