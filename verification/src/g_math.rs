use vstd::prelude::*;

use crate::math::{max_int, min_int};

verus! {

/// A rectangle with 32-bit coordinates, used for overlap checks of output nodes.
#[derive(Debug, Copy, Clone)]
pub struct Rect {
    pub x: i32,
    pub y: i32,
    pub width: u32,
    pub height: u32,
}

/// Whether an integer lies in the range of `i32`.
pub open spec fn fits_i32(v: int) -> bool {
    i32::MIN <= v <= i32::MAX
}

impl Rect {
    /// Right side: the width is reinterpreted as a signed 32-bit value before it is added.
    pub open spec fn x2(&self) -> int {
        self.x + (self.width as i32)
    }

    /// Bottom side: the height is reinterpreted as a signed 32-bit value before it is added.
    pub open spec fn y2(&self) -> int {
        self.y + (self.height as i32)
    }

    pub open spec fn is_empty(&self) -> bool {
        self.width == 0 || self.height == 0
    }

    /// Both rectangles have a positive area and overlap.
    pub open spec fn spec_intersects(&self, o: &Rect) -> bool {
        if self.is_empty() || o.is_empty() {
            false
        } else {
            o.x2() > self.x && o.y2() > self.y && self.x2() > o.x && self.y2() > o.y
        }
    }

    /// No sum evaluated by `intersects` leaves the range of `i32`.
    pub open spec fn intersects_defined(&self, o: &Rect) -> bool {
        !(self.is_empty() || o.is_empty()) ==> {
            &&& fits_i32(o.x2())
            &&& o.x2() > self.x ==> {
                &&& fits_i32(o.y2())
                &&& o.y2() > self.y ==> {
                    &&& fits_i32(self.x2())
                    &&& self.x2() > o.x ==> fits_i32(self.y2())
                }
            }
        }
    }

    pub fn intersects(&self, o: &Rect) -> (r: bool)
        requires
            self.intersects_defined(o),
        ensures
            r == self.spec_intersects(o),
    {
        if self.width == 0 || o.width == 0 || self.height == 0 || o.height == 0 {
            return false;
        }
        o.x + (o.width as i32) > self.x && o.y + (o.height as i32) > self.y && self.x + (
        self.width as i32) > o.x && self.y + (self.height as i32) > o.y
    }

    /// The overlap of two rectangles, when its width and height are positive.
    pub open spec fn spec_intersection(&self, o: &Rect) -> Option<Rect> {
        let l = max_int(self.x as int, o.x as int);
        let t = max_int(self.y as int, o.y as int);
        let w = min_int(self.x2(), o.x2()) - l;
        let h = min_int(self.y2(), o.y2()) - t;
        if w <= 0 || h <= 0 {
            None
        } else {
            Some(Rect { x: l as i32, y: t as i32, width: w as u32, height: h as u32 })
        }
    }

    /// No sum or difference evaluated by `_intersection` leaves the range of `i32`.
    pub open spec fn intersection_defined(&self, o: &Rect) -> bool {
        &&& fits_i32(self.x2())
        &&& fits_i32(self.y2())
        &&& fits_i32(o.x2())
        &&& fits_i32(o.y2())
        &&& fits_i32(min_int(self.x2(), o.x2()) - max_int(self.x as int, o.x as int))
        &&& fits_i32(min_int(self.y2(), o.y2()) - max_int(self.y as int, o.y as int))
    }

    pub fn _intersection(&self, o: &Rect) -> (r: Option<Rect>)
        requires
            self.intersection_defined(o),
        ensures
            r == self.spec_intersection(o),
    {
        let mut i = *self;
        let rx1 = o.x;
        let ry1 = o.y;
        let mut ix2 = self.x + self.width as i32;
        let mut iy2 = self.y + self.height as i32;
        let ox2 = o.x + o.width as i32;
        let oy2 = o.y + o.height as i32;
        if i.x < rx1 {
            i.x = rx1;
        }
        if i.y < ry1 {
            i.y = ry1;
        }
        if ix2 > ox2 {
            ix2 = ox2;
        }
        if iy2 > oy2 {
            iy2 = oy2;
        }
        ix2 -= i.x;
        iy2 -= i.y;
        if ix2 <= 0 || iy2 <= 0 {
            return None;
        }
        i.width = ix2 as u32;
        i.height = iy2 as u32;
        Some(i)
    }

    /// The covering rectangle; an empty rectangle contributes nothing.
    pub open spec fn spec_union(&self, o: &Rect) -> Rect {
        if self.is_empty() {
            *o
        } else if o.is_empty() {
            *self
        } else {
            let x = min_int(self.x as int, o.x as int);
            let y = min_int(self.y as int, o.y as int);
            let w = max_int(self.x2(), o.x2()) - x;
            let h = max_int(self.y2(), o.y2()) - y;
            Rect { x: x as i32, y: y as i32, width: (w as i32) as u32, height: (h as i32) as u32 }
        }
    }

    /// No sum or difference evaluated by `union` leaves the range of `i32`.
    pub open spec fn union_defined(&self, o: &Rect) -> bool {
        !(self.is_empty() || o.is_empty()) ==> {
            &&& fits_i32(self.x2())
            &&& fits_i32(self.y2())
            &&& fits_i32(o.x2())
            &&& fits_i32(o.y2())
            &&& fits_i32(max_int(self.x2(), o.x2()) - min_int(self.x as int, o.x as int))
            &&& fits_i32(max_int(self.y2(), o.y2()) - min_int(self.y as int, o.y as int))
        }
    }

    pub fn union(&self, o: &Rect) -> (r: Rect)
        requires
            self.union_defined(o),
        ensures
            r == self.spec_union(o),
    {
        if self.width == 0 || self.height == 0 {
            return *o;
        }
        let mut u = *self;
        if o.width == 0 || o.height == 0 {
            return u;
        }
        let mut ux2 = u.x + u.width as i32;
        let mut uy2 = u.y + u.height as i32;
        let ox2 = o.x + o.width as i32;
        let oy2 = o.y + o.height as i32;
        if u.x > o.x {
            u.x = o.x;
        }
        if u.y > o.y {
            u.y = o.y;
        }
        if ux2 < ox2 {
            ux2 = ox2;
        }
        if uy2 < oy2 {
            uy2 = oy2;
        }
        u.width = (ux2 - u.x) as u32;
        u.height = (uy2 - u.y) as u32;
        u
    }
}

impl Default for Rect {
    fn default() -> (r: Self)
        ensures
            r == (Rect { x: 0, y: 0, width: 0, height: 0 }),
    {
        Rect { x: 0, y: 0, width: 0, height: 0 }
    }
}

/// A named output with its area on the screen.
#[derive(Debug, Clone)]
pub struct OutputNode {
    pub name: String,
    pub rect: Rect,
}

impl OutputNode {
    pub fn has_overlap(&self, nodes: &Vec<Self>) -> (r: bool)
        requires
            forall|i: int| 0 <= i < nodes.len() ==> self.rect.intersects_defined(&#[trigger] nodes@[i].rect),
        ensures
            r == exists|i: int| 0 <= i < nodes.len() && self.rect.spec_intersects(&#[trigger] nodes@[i].rect),
    {
        let mut k: usize = 0;
        while k < nodes.len()
            invariant
                0 <= k <= nodes.len(),
                forall|i: int| 0 <= i < nodes.len() ==> self.rect.intersects_defined(&#[trigger] nodes@[i].rect),
                forall|i: int| 0 <= i < k ==> !self.rect.spec_intersects(&#[trigger] nodes@[i].rect),
            decreases nodes.len() - k,
        {
            if self.rect.intersects(&nodes[k].rect) {
                return true;
            }
            k += 1;
        }
        false
    }

    pub fn _get_fist_overlap(&self, nodes: &Vec<Self>) -> (r: Option<Rect>)
        requires
            forall|i: int| 0 <= i < nodes.len() ==> self.rect.intersection_defined(&#[trigger] nodes@[i].rect),
        ensures
            r is None ==> forall|i: int| 0 <= i < nodes.len() ==> self.rect.spec_intersection(&#[trigger] nodes@[i].rect) is None,
            r matches Some(x) ==> exists|i: int| 0 <= i < nodes.len()
                && self.rect.spec_intersection(&#[trigger] nodes@[i].rect) == Some(x)
                && forall|j: int| 0 <= j < i ==> self.rect.spec_intersection(&#[trigger] nodes@[j].rect) is None,
    {
        let mut k: usize = 0;
        while k < nodes.len()
            invariant
                0 <= k <= nodes.len(),
                forall|i: int| 0 <= i < nodes.len() ==> self.rect.intersection_defined(&#[trigger] nodes@[i].rect),
                forall|i: int| 0 <= i < k ==> self.rect.spec_intersection(&#[trigger] nodes@[i].rect) is None,
            decreases nodes.len() - k,
        {
            if let Some(i) = self.rect._intersection(&nodes[k].rect) {
                assert(self.rect.spec_intersection(&nodes@[k as int].rect) == Some(i));
                return Some(i);
            }
            k += 1;
        }
        None
    }
}

/// Conversion of a layout element into an output node.
pub trait ToOutputNode {
    fn to_output_node(&self) -> OutputNode;
}

/// The output nodes recorded step by step while overlaps are resolved.
pub struct OverlapDebugInfo {
    pub step_nodes: Vec<OutputNode>,
}

impl OverlapDebugInfo {
    pub fn new() -> (r: Self)
        ensures
            r.step_nodes@.len() == 0,
    {
        OverlapDebugInfo { step_nodes: Vec::new() }
    }
}

/// Overlap is symmetric.
pub proof fn lemma_intersects_symmetric(a: Rect, b: Rect)
    ensures
        a.spec_intersects(&b) == b.spec_intersects(&a),
{
}

/// For rectangles whose sides fit in the signed range, the intersection exists
/// exactly when the rectangles overlap.
pub proof fn lemma_intersection_iff_intersects(a: Rect, b: Rect)
    requires
        a.width <= i32::MAX,
        a.height <= i32::MAX,
        b.width <= i32::MAX,
        b.height <= i32::MAX,
    ensures
        a.spec_intersection(&b) is Some <==> a.spec_intersects(&b),
{
}

/// An empty rectangle is the neutral element of union.
pub proof fn lemma_union_empty(a: Rect, b: Rect)
    ensures
        a.is_empty() ==> a.spec_union(&b) == b,
        b.is_empty() ==> b.spec_union(&a) == a,
        b.is_empty() && !a.is_empty() ==> a.spec_union(&b) == a,
{
}

/// The union of two non-empty rectangles with sides in the signed range covers both.
pub proof fn lemma_union_covers(a: Rect, b: Rect)
    requires
        !a.is_empty(),
        !b.is_empty(),
        a.width <= i32::MAX,
        a.height <= i32::MAX,
        b.width <= i32::MAX,
        b.height <= i32::MAX,
        a.union_defined(&b),
    ensures
        a.spec_union(&b).x <= a.x && a.spec_union(&b).x <= b.x,
        a.spec_union(&b).y <= a.y && a.spec_union(&b).y <= b.y,
        a.spec_union(&b).x2() >= a.x2() && a.spec_union(&b).x2() >= b.x2(),
        a.spec_union(&b).y2() >= a.y2() && a.spec_union(&b).y2() >= b.y2(),
{
}

/// A node overlaps some node of a list exactly when a first overlap with it exists.
pub proof fn lemma_overlap_iff_first_overlap(n: OutputNode, nodes: Seq<OutputNode>)
    requires
        n.rect.width <= i32::MAX,
        n.rect.height <= i32::MAX,
        forall|i: int| 0 <= i < nodes.len() ==> (#[trigger] nodes[i]).rect.width <= i32::MAX && nodes[i].rect.height <= i32::MAX,
    ensures
        (exists|i: int| 0 <= i < nodes.len() && n.rect.spec_intersects(&#[trigger] nodes[i].rect))
            <==> (exists|i: int| 0 <= i < nodes.len() && (#[trigger] n.rect.spec_intersection(&nodes[i].rect)) is Some),
{
    assert forall|i: int| 0 <= i < nodes.len() implies n.rect.spec_intersects(&nodes[i].rect)
        == (n.rect.spec_intersection(&nodes[i].rect) is Some) by {
        lemma_intersection_iff_intersects(n.rect, nodes[i].rect);
    }
}

} // verus!
