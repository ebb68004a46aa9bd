use vstd::prelude::*;
use crate::guid::Guid;
use crate::point::CanvasPoint;
use crate::shape::{new_shape_view, Shape, ShapeView};
use crate::tool::Tool;

verus! {

/// One change to the catalog.
#[derive(Clone, Copy, Debug)]
pub enum ShapeCatalogAction {
    /// Redraws shape `id` from a pointer sample, or starts it with
    /// `current_tool` when the catalog has no such id.
    UpsertShape {
        id: Guid,
        position: CanvasPoint,
        width_height: CanvasPoint,
        selected: bool,
        current_tool: Tool,
    },
    /// Puts every selected shape at its drag anchor plus `offset`.
    UpsertSelectedShapes { offset: CanvasPoint },
    /// Selects exactly the shapes that overlap the box `(origin, extent)`.
    SelectIntersecting { selection_box: (CanvasPoint, CanvasPoint) },
    SelectAll,
    UnselectAll,
    DeleteSelected,
    /// Reserved; changes nothing.
    DeletePrevious,
    /// A click at a canvas point: see `unselect_except_point`.
    UnselectExceptPoint(CanvasPoint),
    /// Records each selected shape's position as its drag anchor.
    SaveSelectedIds,
}

/// Catalog contents: `(id, shape)` in draw order.
pub type CatalogView = Seq<(Guid, ShapeView)>;

pub open spec fn ids_increasing(s: CatalogView) -> bool {
    forall|i: int, j: int| 0 <= i < j < s.len() ==> s[i].0 < s[j].0
}

pub open spec fn ids_below(s: CatalogView, n: int) -> bool {
    forall|i: int| 0 <= i < s.len() ==> s[i].0 < n
}

pub open spec fn has_id(s: CatalogView, id: Guid) -> bool {
    exists|i: int| 0 <= i < s.len() && s[i].0 == id
}

/// Every shape replaced by `f` of it, ids kept.
pub open spec fn map_shapes(s: CatalogView, f: spec_fn(ShapeView) -> ShapeView) -> CatalogView {
    s.map_values(|e: (Guid, ShapeView)| (e.0, f(e.1)))
}

pub open spec fn all_with_selected(s: CatalogView, b: bool) -> CatalogView {
    map_shapes(s, |v: ShapeView| v.with_selected(b))
}

pub open spec fn intersecting_selected(s: CatalogView, b: (CanvasPoint, CanvasPoint)) -> CatalogView {
    map_shapes(s, |v: ShapeView| v.with_selected(v.intersects(b)))
}

pub open spec fn all_anchored(s: CatalogView) -> CatalogView {
    map_shapes(s, |v: ShapeView| v.anchored())
}

pub open spec fn all_moved(s: CatalogView, offset: CanvasPoint) -> CatalogView {
    map_shapes(s, |v: ShapeView| v.moved(offset))
}

pub open spec fn all_move_fits(s: CatalogView, offset: CanvasPoint) -> bool {
    forall|i: int| 0 <= i < s.len() ==> #[trigger] s[i].1.move_fits(offset)
}

pub open spec fn any_inside(s: CatalogView, p: CanvasPoint) -> bool {
    exists|i: int| 0 <= i < s.len() && #[trigger] s[i].1.is_inside(p)
}

/// A shape under the point that was not selected yet.
pub open spec fn freshly_hit(v: ShapeView, p: CanvasPoint) -> bool {
    v.is_inside(p) && !v.selected()
}

pub open spec fn any_freshly_hit(s: CatalogView, p: CanvasPoint) -> bool {
    exists|i: int| 0 <= i < s.len() && #[trigger] freshly_hit(s[i].1, p)
}

/// A click at `p`: on empty canvas nothing stays selected; a click that hits
/// unselected shapes selects exactly those; a click only on shapes that are
/// already selected changes nothing.
pub open spec fn clicked_at(s: CatalogView, p: CanvasPoint) -> CatalogView {
    if !any_inside(s, p) {
        all_with_selected(s, false)
    } else if any_freshly_hit(s, p) {
        map_shapes(s, |v: ShapeView| v.with_selected(freshly_hit(v, p)))
    } else {
        s
    }
}

pub open spec fn is_unselected(e: (Guid, ShapeView)) -> bool {
    !e.1.selected()
}

pub open spec fn is_selected(e: (Guid, ShapeView)) -> bool {
    e.1.selected()
}

/// The catalog without its selected shapes, order kept.
pub open spec fn without_selected(s: CatalogView) -> CatalogView {
    s.filter(|e: (Guid, ShapeView)| is_unselected(e))
}

/// `r` is `s` after an upsert of shape `id`: an existing shape is redrawn in
/// place; otherwise the new shape joins at the place its id sorts to.
pub open spec fn upserted(
    s: CatalogView,
    id: Guid,
    position: CanvasPoint,
    size: CanvasPoint,
    selected: bool,
    tool: Tool,
    r: CatalogView,
) -> bool {
    if has_id(s, id) {
        forall|i: int|
            0 <= i < s.len() && s[i].0 == id ==> r == s.update(
                i,
                (id, s[i].1.upserted(position, size, selected)),
            )
    } else {
        &&& ids_increasing(r)
        &&& exists|k: int|
            0 <= k <= s.len() && r == s.insert(k, (id, new_shape_view(tool, position, size, selected)))
    }
}

/// What `reduce` asks of an action: a shape that does not exist yet needs a
/// drawing tool, and a move must stay on the coordinate range.
pub open spec fn action_allowed(s: CatalogView, action: ShapeCatalogAction) -> bool {
    match action {
        ShapeCatalogAction::UpsertShape { id, current_tool, .. } => has_id(s, id)
            || current_tool.spec_draws_shape(),
        ShapeCatalogAction::UpsertSelectedShapes { offset } => all_move_fits(s, offset),
        _ => true,
    }
}

/// `r` is the catalog `s` after `action`.
pub open spec fn reduced(s: CatalogView, action: ShapeCatalogAction, r: CatalogView) -> bool {
    match action {
        ShapeCatalogAction::UpsertShape { id, position, width_height, selected, current_tool } =>
            upserted(s, id, position, width_height, selected, current_tool, r),
        ShapeCatalogAction::UpsertSelectedShapes { offset } => r == all_moved(s, offset),
        ShapeCatalogAction::SelectIntersecting { selection_box } => r == intersecting_selected(
            s,
            selection_box,
        ),
        ShapeCatalogAction::SelectAll => r == all_with_selected(s, true),
        ShapeCatalogAction::UnselectAll => r == all_with_selected(s, false),
        ShapeCatalogAction::DeleteSelected => r == without_selected(s),
        ShapeCatalogAction::DeletePrevious => r == s,
        ShapeCatalogAction::UnselectExceptPoint(p) => r == clicked_at(s, p),
        ShapeCatalogAction::SaveSelectedIds => r == all_anchored(s),
    }
}

proof fn lemma_same_ids(a: CatalogView, b: CatalogView, n: int)
    requires
        a.len() == b.len(),
        forall|i: int| 0 <= i < a.len() ==> a[i].0 == b[i].0,
        ids_increasing(a),
        ids_below(a, n),
    ensures
        ids_increasing(b),
        ids_below(b, n),
{
    assert forall|i: int, j: int| 0 <= i < j < b.len() implies b[i].0 < b[j].0 by {
        assert(a[i].0 < a[j].0);
    }
    assert forall|i: int| 0 <= i < b.len() implies b[i].0 < n by {
        assert(a[i].0 < n);
    }
}

proof fn lemma_remove_keeps_order(s: CatalogView, i: int, n: int)
    requires
        0 <= i < s.len(),
        ids_increasing(s),
        ids_below(s, n),
    ensures
        ids_increasing(s.remove(i)),
        ids_below(s.remove(i), n),
{
    let r = s.remove(i);
    assert forall|a: int, b: int| 0 <= a < b < r.len() implies r[a].0 < r[b].0 by {
        let a0 = if a < i { a } else { a + 1 };
        let b0 = if b < i { b } else { b + 1 };
        assert(r[a] == s[a0] && r[b] == s[b0]);
    }
    assert forall|a: int| 0 <= a < r.len() implies r[a].0 < n by {
        let a0 = if a < i { a } else { a + 1 };
        assert(r[a] == s[a0]);
    }
}

/// One more entry of `s` taken into account by the deletion.
proof fn lemma_without_selected_step(s: CatalogView, k: int)
    requires
        0 <= k < s.len(),
    ensures
        without_selected(s.take(k + 1)) == if s[k].1.selected() {
            without_selected(s.take(k))
        } else {
            without_selected(s.take(k)).push(s[k])
        },
{
    reveal(Seq::filter);
    assert(s.take(k + 1).drop_last() =~= s.take(k));
    assert(s.take(k + 1).last() == s[k]);
}

/// The shapes on the canvas, by id, in draw order (increasing id).
#[derive(Debug)]
pub struct ShapeCatalog {
    shapes: Vec<(Guid, Shape)>,
    /// Above every id that the catalog has held.
    next_id: u64,
}

impl View for ShapeCatalog {
    type V = CatalogView;

    closed spec fn view(&self) -> CatalogView {
        self.shapes@.map_values(|e: (Guid, Shape)| (e.0, e.1@))
    }
}

impl ShapeCatalog {
    /// Ids strictly increase, and `add_shape` can take the next one.
    pub closed spec fn wf(&self) -> bool {
        &&& ids_increasing(self@)
        &&& ids_below(self@, self.next_id as int)
        &&& self.next_id <= 0x1_0000_0000
    }

    /// The id that `add_shape` gives.
    pub closed spec fn spec_next_id(&self) -> u64 {
        self.next_id
    }

    pub fn new() -> (r: ShapeCatalog)
        ensures
            r.wf(),
            r@ == Seq::<(Guid, ShapeView)>::empty(),
            r.spec_next_id() == 0,
    {
        let r = ShapeCatalog { shapes: Vec::new(), next_id: 0 };
        assert(r@ =~= Seq::<(Guid, ShapeView)>::empty());
        r
    }

    pub fn len(&self) -> (r: usize)
        ensures
            r == self@.len(),
    {
        self.shapes.len()
    }

    /// The entries, for a renderer to draw.
    pub fn shapes(&self) -> (r: &Vec<(Guid, Shape)>)
        ensures
            r@.map_values(|e: (Guid, Shape)| (e.0, e.1@)) == self@,
    {
        &self.shapes
    }

    /// The shape with id `id`.
    pub fn get(&self, id: Guid) -> (r: Option<&Shape>)
        ensures
            r is Some <==> has_id(self@, id),
            r is Some ==> exists|i: int|
                0 <= i < self@.len() && self@[i].0 == id && self@[i].1 == r->0@,
    {
        let n = self.shapes.len();
        let mut i: usize = 0;
        while i < n
            invariant
                0 <= i <= n,
                n == self.shapes@.len(),
                forall|j: int| 0 <= j < i ==> self@[j].0 != id,
            decreases n - i,
        {
            if self.shapes[i].0 == id {
                assert(self@[i as int] == (self.shapes@[i as int].0, self.shapes@[i as int].1@));
                return Some(&self.shapes[i].1);
            }
            i += 1;
        }
        None
    }

    /// Whether some shape is selected.
    pub fn any_selected(&self) -> (r: bool)
        ensures
            r == exists|i: int| 0 <= i < self@.len() && #[trigger] self@[i].1.selected(),
    {
        let n = self.shapes.len();
        let mut i: usize = 0;
        while i < n
            invariant
                0 <= i <= n,
                n == self.shapes@.len(),
                forall|j: int| 0 <= j < i ==> !#[trigger] self@[j].1.selected(),
            decreases n - i,
        {
            if self.shapes[i].1.selected() {
                assert(self@[i as int].1.selected());
                return true;
            }
            i += 1;
        }
        false
    }

    /// Whether `upsert_selected_shapes` can move the selection by `offset`.
    pub fn move_fits(&self, offset: CanvasPoint) -> (r: bool)
        ensures
            r == all_move_fits(self@, offset),
    {
        let n = self.shapes.len();
        let mut i: usize = 0;
        while i < n
            invariant
                0 <= i <= n,
                n == self.shapes@.len(),
                forall|j: int| 0 <= j < i ==> #[trigger] self@[j].1.move_fits(offset),
            decreases n - i,
        {
            if !self.shapes[i].1.move_fits(offset) {
                assert(!self@[i as int].1.move_fits(offset));
                return false;
            }
            i += 1;
        }
        true
    }

    /// Sets every shape's selection flag to `b`.
    fn set_all_selected(&mut self, b: bool)
        requires
            old(self).wf(),
        ensures
            final(self).wf(),
            final(self).next_id == old(self).next_id,
            final(self)@ == all_with_selected(old(self)@, b),
    {
        let ghost s0 = self@;
        let n = self.shapes.len();
        let mut i: usize = 0;
        while i < n
            invariant
                0 <= i <= n,
                n == self.shapes@.len(),
                self@.len() == s0.len(),
                self.next_id == old(self).next_id,
                forall|j: int| 0 <= j < i ==> self.shapes@[j].0 == s0[j].0 && self.shapes@[j].1@ == s0[j].1.with_selected(b),
                forall|j: int| i <= j < n ==> self.shapes@[j].0 == s0[j].0 && self.shapes@[j].1@ == s0[j].1,
            decreases n - i,
        {
            self.shapes[i].1.set_selected(b);
            i += 1;
        }
        assert(self@ =~= all_with_selected(s0, b));
        proof {
            lemma_same_ids(s0, self@, self.next_id as int);
        }
    }

    pub fn unselect_all(&mut self)
        requires
            old(self).wf(),
        ensures
            final(self).wf(),
            final(self).spec_next_id() == old(self).spec_next_id(),
            final(self)@ == all_with_selected(old(self)@, false),
    {
        self.set_all_selected(false)
    }

    pub fn select_all(&mut self)
        requires
            old(self).wf(),
        ensures
            final(self).wf(),
            final(self).spec_next_id() == old(self).spec_next_id(),
            final(self)@ == all_with_selected(old(self)@, true),
    {
        self.set_all_selected(true)
    }

    /// Marquee selection: each shape is selected exactly when it overlaps
    /// the box, whatever was selected before.
    pub fn select_intersecting(&mut self, selection_box: (CanvasPoint, CanvasPoint))
        requires
            old(self).wf(),
        ensures
            final(self).wf(),
            final(self).spec_next_id() == old(self).spec_next_id(),
            final(self)@ == intersecting_selected(old(self)@, selection_box),
    {
        let ghost s0 = self@;
        let n = self.shapes.len();
        let mut i: usize = 0;
        while i < n
            invariant
                0 <= i <= n,
                n == self.shapes@.len(),
                self@.len() == s0.len(),
                self.next_id == old(self).next_id,
                forall|j: int|
                    0 <= j < i ==> self.shapes@[j].0 == s0[j].0 && self.shapes@[j].1@
                        == s0[j].1.with_selected(s0[j].1.intersects(selection_box)),
                forall|j: int| i <= j < n ==> self.shapes@[j].0 == s0[j].0 && self.shapes@[j].1@ == s0[j].1,
            decreases n - i,
        {
            let hit = self.shapes[i].1.intersects(selection_box);
            self.shapes[i].1.set_selected(hit);
            i += 1;
        }
        assert(self@ =~= intersecting_selected(s0, selection_box));
        proof {
            lemma_same_ids(s0, self@, self.next_id as int);
        }
    }

    /// Records each selected shape's position as its drag anchor.
    pub fn save_selected_ids(&mut self)
        requires
            old(self).wf(),
        ensures
            final(self).wf(),
            final(self).spec_next_id() == old(self).spec_next_id(),
            final(self)@ == all_anchored(old(self)@),
    {
        let ghost s0 = self@;
        let n = self.shapes.len();
        let mut i: usize = 0;
        while i < n
            invariant
                0 <= i <= n,
                n == self.shapes@.len(),
                self@.len() == s0.len(),
                self.next_id == old(self).next_id,
                forall|j: int| 0 <= j < i ==> self.shapes@[j].0 == s0[j].0 && self.shapes@[j].1@ == s0[j].1.anchored(),
                forall|j: int| i <= j < n ==> self.shapes@[j].0 == s0[j].0 && self.shapes@[j].1@ == s0[j].1,
            decreases n - i,
        {
            self.shapes[i].1.anchor();
            i += 1;
        }
        assert(self@ =~= all_anchored(s0));
        proof {
            lemma_same_ids(s0, self@, self.next_id as int);
        }
    }

    /// Puts every selected shape at its drag anchor (or, without one, its
    /// live position) plus `offset`. The anchors stay, so the same offset
    /// twice gives the same result as once.
    pub fn upsert_selected_shapes(&mut self, offset: CanvasPoint)
        requires
            old(self).wf(),
            all_move_fits(old(self)@, offset),
        ensures
            final(self).wf(),
            final(self).spec_next_id() == old(self).spec_next_id(),
            final(self)@ == all_moved(old(self)@, offset),
    {
        let ghost s0 = self@;
        let n = self.shapes.len();
        let mut i: usize = 0;
        while i < n
            invariant
                0 <= i <= n,
                n == self.shapes@.len(),
                self@.len() == s0.len(),
                self.next_id == old(self).next_id,
                all_move_fits(s0, offset),
                forall|j: int| 0 <= j < i ==> self.shapes@[j].0 == s0[j].0 && self.shapes@[j].1@ == s0[j].1.moved(offset),
                forall|j: int| i <= j < n ==> self.shapes@[j].0 == s0[j].0 && self.shapes@[j].1@ == s0[j].1,
            decreases n - i,
        {
            assert(s0[i as int].1.move_fits(offset));
            self.shapes[i].1.move_from_anchor(offset);
            i += 1;
        }
        assert(self@ =~= all_moved(s0, offset));
        proof {
            lemma_same_ids(s0, self@, self.next_id as int);
        }
    }

    /// A click at canvas point `point`. No shape under it: everything is
    /// unselected. Some unselected shape under it: exactly the unselected
    /// shapes under it become the selection. Otherwise nothing changes.
    pub fn unselect_except_point(&mut self, point: CanvasPoint)
        requires
            old(self).wf(),
        ensures
            final(self).wf(),
            final(self).spec_next_id() == old(self).spec_next_id(),
            final(self)@ == clicked_at(old(self)@, point),
    {
        let ghost s0 = self@;
        let n = self.shapes.len();
        let mut inside_any = false;
        let mut fresh_any = false;
        let mut i: usize = 0;
        while i < n
            invariant
                0 <= i <= n,
                n == self.shapes@.len(),
                self@ == s0,
                inside_any == exists|j: int| 0 <= j < i && #[trigger] s0[j].1.is_inside(point),
                fresh_any == exists|j: int| 0 <= j < i && #[trigger] freshly_hit(s0[j].1, point),
            decreases n - i,
        {
            let inside = self.shapes[i].1.is_inside(point);
            let selected = self.shapes[i].1.selected();
            proof {
                assert(inside == s0[i as int].1.is_inside(point));
                assert((inside && !selected) == freshly_hit(s0[i as int].1, point));
            }
            if inside {
                inside_any = true;
                if !selected {
                    fresh_any = true;
                }
            }
            i += 1;
        }
        if !inside_any {
            self.set_all_selected(false);
        } else if fresh_any {
            let mut i: usize = 0;
            while i < n
                invariant
                    0 <= i <= n,
                    n == self.shapes@.len(),
                    self@.len() == s0.len(),
                    self.next_id == old(self).next_id,
                    forall|j: int|
                        0 <= j < i ==> self.shapes@[j].0 == s0[j].0 && self.shapes@[j].1@
                            == s0[j].1.with_selected(freshly_hit(s0[j].1, point)),
                    forall|j: int| i <= j < n ==> self.shapes@[j].0 == s0[j].0 && self.shapes@[j].1@ == s0[j].1,
                decreases n - i,
            {
                let fresh = self.shapes[i].1.is_inside(point) && !self.shapes[i].1.selected();
                self.shapes[i].1.set_selected(fresh);
                i += 1;
            }
            assert(self@ =~= map_shapes(
                s0,
                |v: ShapeView| v.with_selected(freshly_hit(v, point)),
            ));
            proof {
                lemma_same_ids(s0, self@, self.next_id as int);
            }
        }
    }
    /// Appends `shape` under the catalog's next id, which it returns.
    pub fn add_shape(&mut self, shape: Shape) -> (r: Guid)
        requires
            old(self).wf(),
            old(self).spec_next_id() < 0x1_0000_0000,
        ensures
            final(self).wf(),
            r == old(self).spec_next_id(),
            final(self).spec_next_id() == old(self).spec_next_id() + 1,
            final(self)@ == old(self)@.push((r, shape@)),
    {
        let ghost s0 = self@;
        let id = self.next_id as u32;
        self.shapes.push((id, shape));
        self.next_id = self.next_id + 1;
        assert(self@ =~= s0.push((id, shape@)));
        id
    }

    /// Sets the given fields of shape `id`.
    pub fn update_shape(
        &mut self,
        id: Guid,
        position: Option<CanvasPoint>,
        width_height: Option<CanvasPoint>,
        selected: Option<bool>,
    )
        requires
            old(self).wf(),
            has_id(old(self)@, id),
        ensures
            final(self).wf(),
            final(self).spec_next_id() == old(self).spec_next_id(),
            forall|i: int|
                0 <= i < old(self)@.len() && old(self)@[i].0 == id ==> final(self)@ == old(
                    self,
                )@.update(i, (id, old(self)@[i].1.with_fields(position, width_height, selected))),
    {
        let ghost s0 = self@;
        let k = self.find(id);
        self.shapes[k].1.update_fields(position, width_height, selected);
        assert(self@ =~= s0.update(
            k as int,
            (id, s0[k as int].1.with_fields(position, width_height, selected)),
        ));
        proof {
            lemma_same_ids(s0, self@, self.next_id as int);
        }
    }

    /// The index of the first entry whose id is not below `id`.
    fn find(&self, id: Guid) -> (k: usize)
        requires
            self.wf(),
        ensures
            k <= self@.len(),
            forall|j: int| 0 <= j < k ==> self@[j].0 < id,
            forall|j: int| k <= j < self@.len() ==> self@[j].0 >= id,
            has_id(self@, id) <==> (k < self@.len() && self@[k as int].0 == id),
            forall|i: int| 0 <= i < self@.len() && self@[i].0 == id ==> i == k,
    {
        let n = self.shapes.len();
        let mut k: usize = 0;
        while k < n && self.shapes[k].0 < id
            invariant
                0 <= k <= n,
                n == self.shapes@.len(),
                forall|j: int| 0 <= j < k ==> self@[j].0 < id,
            decreases n - k,
        {
            k += 1;
        }
        assert forall|j: int| k <= j < self@.len() implies self@[j].0 >= id by {
            if j > k {
                assert(self@[k as int].0 < self@[j].0);
            }
        }
        k
    }

    /// Redraws shape `id` from a pointer sample, or starts it with `tool`
    /// when the catalog has no such id.
    pub fn upsert_shape(
        &mut self,
        id: Guid,
        position: CanvasPoint,
        width_height: CanvasPoint,
        selected: bool,
        current_tool: Tool,
    )
        requires
            old(self).wf(),
            has_id(old(self)@, id) || current_tool.spec_draws_shape(),
        ensures
            final(self).wf(),
            upserted(old(self)@, id, position, width_height, selected, current_tool, final(self)@),
            has_id(final(self)@, id),
    {
        let ghost s0 = self@;
        let k = self.find(id);
        if k < self.shapes.len() && self.shapes[k].0 == id {
            self.shapes[k].1.upsert(position, width_height, selected);
            assert(self@ =~= s0.update(
                k as int,
                (id, s0[k as int].1.upserted(position, width_height, selected)),
            ));
            assert(self@[k as int].0 == id);
            proof {
                lemma_same_ids(s0, self@, self.next_id as int);
            }
        } else {
            let shape = Shape::from_tool(current_tool, position, width_height, selected);
            self.shapes.insert(k, (id, shape));
            if id as u64 >= self.next_id {
                self.next_id = id as u64 + 1;
            }
            let ghost e = (id, new_shape_view(current_tool, position, width_height, selected));
            assert(self@ =~= s0.insert(k as int, e));
            assert(self@[k as int].0 == id);
            assert forall|a: int, b: int| 0 <= a < b < self@.len() implies self@[a].0
                < self@[b].0 by {
                let a0 = if a < k { a } else { a - 1 };
                let b0 = if b < k { b } else { b - 1 };
                if a != k as int && b != k as int {
                    assert(s0[a0].0 < s0[b0].0);
                } else if a == k as int {
                    assert(s0[b0].0 >= id);
                } else {
                    assert(s0[a0].0 < id);
                }
            }
        }
    }

    /// Removes every selected shape; the others keep their ids and order.
    pub fn delete_selected(&mut self)
        requires
            old(self).wf(),
        ensures
            final(self).wf(),
            final(self).spec_next_id() == old(self).spec_next_id(),
            final(self)@ == without_selected(old(self)@),
    {
        let ghost s0 = self@;
        let mut i: usize = 0;
        let ghost mut k: int = 0;
        assert(s0.take(0) =~= Seq::<(Guid, ShapeView)>::empty());
        assert(without_selected(s0.take(0)) == s0.take(0)) by {
            reveal(Seq::filter);
        }
        assert(self@ =~= without_selected(s0.take(0)) + s0.skip(0));
        while i < self.shapes.len()
            invariant
                0 <= k <= s0.len(),
                self@ == without_selected(s0.take(k)) + s0.skip(k),
                i == without_selected(s0.take(k)).len(),
                self.wf(),
                self.next_id == old(self).next_id,
            decreases self.shapes@.len() - i,
        {
            proof {
                lemma_without_selected_step(s0, k);
                assert(self@[i as int] == s0[k]);
            }
            let ghost before = self@;
            if self.shapes[i].1.selected() {
                self.shapes.remove(i);
                assert(self@ =~= before.remove(i as int));
                assert(self@ =~= without_selected(s0.take(k + 1)) + s0.skip(k + 1));
                proof {
                    lemma_remove_keeps_order(before, i as int, self.next_id as int);
                }
            } else {
                assert(self@ =~= without_selected(s0.take(k + 1)) + s0.skip(k + 1));
                i += 1;
            }
            proof {
                k = k + 1;
            }
        }
        assert(s0.take(k) =~= s0);
    }

    /// Applies one action; see `reduced` for what each one does.
    pub fn reduce(&mut self, action: ShapeCatalogAction)
        requires
            old(self).wf(),
            action_allowed(old(self)@, action),
        ensures
            final(self).wf(),
            reduced(old(self)@, action, final(self)@),
    {
        match action {
            ShapeCatalogAction::UpsertShape {
                id,
                position,
                width_height,
                selected,
                current_tool,
            } => self.upsert_shape(id, position, width_height, selected, current_tool),
            ShapeCatalogAction::UpsertSelectedShapes { offset } => self.upsert_selected_shapes(
                offset,
            ),
            ShapeCatalogAction::SelectIntersecting { selection_box } => self.select_intersecting(
                selection_box,
            ),
            ShapeCatalogAction::SelectAll => self.select_all(),
            ShapeCatalogAction::UnselectAll => self.unselect_all(),
            ShapeCatalogAction::DeleteSelected => self.delete_selected(),
            ShapeCatalogAction::DeletePrevious => {},
            ShapeCatalogAction::UnselectExceptPoint(point) => self.unselect_except_point(point),
            ShapeCatalogAction::SaveSelectedIds => self.save_selected_ids(),
        }
    }
}

} // verus!
