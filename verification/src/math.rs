use vstd::prelude::*;

verus! {

/// A point in screen coordinates.
#[derive(PartialEq, Eq, Structural, Clone, Copy, Debug)]
pub struct Point {
    pub x: i32,
    pub y: i32,
}

impl Point {
    pub fn new(x: i32, y: i32) -> (p: Self)
        ensures
            p.x == x,
            p.y == y,
    {
        Point { x, y }
    }
}

/// The smaller of two integers.
pub open spec fn min_int(a: int, b: int) -> int {
    if a <= b {
        a
    } else {
        b
    }
}

/// The larger of two integers.
pub open spec fn max_int(a: int, b: int) -> int {
    if a >= b {
        a
    } else {
        b
    }
}

/// A rectangle in X screen coordinates: signed 16-bit origin, unsigned 16-bit size.
#[derive(Clone, Copy, Debug)]
pub struct Rect {
    x: i16,
    y: i16,
    width: u16,
    height: u16,
}

impl Rect {
    pub closed spec fn left(&self) -> int {
        self.x as int
    }

    pub closed spec fn top(&self) -> int {
        self.y as int
    }

    pub closed spec fn w(&self) -> int {
        self.width as int
    }

    pub closed spec fn h(&self) -> int {
        self.height as int
    }

    /// The rectangle with the given origin and size.
    pub closed spec fn from_parts(x: i16, y: i16, width: u16, height: u16) -> Rect {
        Rect { x, y, width, height }
    }

    pub open spec fn right_edge(&self) -> int {
        self.left() + self.w()
    }

    pub open spec fn bottom_edge(&self) -> int {
        self.top() + self.h()
    }

    /// Right and bottom side stay within the unsigned 16-bit coordinate space.
    pub open spec fn fits(&self) -> bool {
        self.right_edge() <= 0xFFFF && self.bottom_edge() <= 0xFFFF
    }

    pub open spec fn contains_point(&self, x: int, y: int) -> bool {
        self.left() <= x <= self.right_edge() && self.top() <= y <= self.bottom_edge()
    }

    pub proof fn lemma_ranges(&self)
        ensures
            i16::MIN <= self.left() <= i16::MAX,
            i16::MIN <= self.top() <= i16::MAX,
            0 <= self.w() <= u16::MAX,
            0 <= self.h() <= u16::MAX,
    {
    }

    /// The parts of a rectangle given by its origin and size.
    pub proof fn lemma_from_parts(x: i16, y: i16, width: u16, height: u16)
        ensures
            Rect::from_parts(x, y, width, height).left() == x,
            Rect::from_parts(x, y, width, height).top() == y,
            Rect::from_parts(x, y, width, height).w() == width,
            Rect::from_parts(x, y, width, height).h() == height,
    {
    }

    /// Two rectangles with equal origin and size are equal.
    pub proof fn lemma_ext_eq(a: Rect, b: Rect)
        requires
            a.left() == b.left(),
            a.top() == b.top(),
            a.w() == b.w(),
            a.h() == b.h(),
        ensures
            a == b,
    {
    }

    pub fn new(x: i16, y: i16, width: u16, height: u16) -> (r: Self)
        requires
            x + width <= 0xFFFF,
            y + height <= 0xFFFF,
        ensures
            r == Rect::from_parts(x, y, width, height),
            r.left() == x,
            r.top() == y,
            r.w() == width,
            r.h() == height,
    {
        Rect { x, y, width, height }
    }

    pub fn x(&self) -> (r: i16)
        ensures
            r == self.left(),
    {
        self.x
    }

    pub fn y(&self) -> (r: i16)
        ensures
            r == self.top(),
    {
        self.y
    }

    pub fn width(&self) -> (r: u16)
        ensures
            r == self.w(),
    {
        self.width
    }

    pub fn height(&self) -> (r: u16)
        ensures
            r == self.h(),
    {
        self.height
    }

    fn right(&self) -> (r: i32)
        ensures
            r == self.right_edge(),
    {
        self.x as i32 + self.width as i32
    }

    fn bottom(&self) -> (r: i32)
        ensures
            r == self.bottom_edge(),
    {
        self.y as i32 + self.height as i32
    }

    /// Center of the rectangle, with half sizes rounded down.
    pub fn center(&self) -> (p: Point)
        ensures
            p.x == self.left() + self.w() / 2,
            p.y == self.top() + self.h() / 2,
    {
        Point { x: self.x as i32 + (self.width / 2) as i32, y: self.y as i32 + (self.height / 2) as i32 }
    }

    /// Whether the point lies inside the rectangle, borders included.
    pub fn contains(&self, x: i32, y: i32) -> (r: bool)
        ensures
            r == self.contains_point(x as int, y as int),
    {
        x >= self.x as i32 && x <= self.right() && y >= self.y as i32 && y <= self.bottom()
    }

    /// The smallest rectangle covering both rectangles.
    pub open spec fn spec_union(&self, o: &Self) -> Rect {
        let x = min_int(self.left(), o.left());
        let y = min_int(self.top(), o.top());
        Rect::from_parts(
            x as i16,
            y as i16,
            (max_int(self.right_edge(), o.right_edge()) - x) as u16,
            (max_int(self.bottom_edge(), o.bottom_edge()) - y) as u16,
        )
    }

    /// Width and height of the covering rectangle fit in 16 bits, and so do its right
    /// and bottom side.
    pub open spec fn union_fits(&self, o: &Self) -> bool {
        &&& max_int(self.right_edge(), o.right_edge()) - min_int(self.left(), o.left()) <= u16::MAX
        &&& max_int(self.bottom_edge(), o.bottom_edge()) - min_int(self.top(), o.top()) <= u16::MAX
        &&& max_int(self.right_edge(), o.right_edge()) <= 0xFFFF
        &&& max_int(self.bottom_edge(), o.bottom_edge()) <= 0xFFFF
    }

    pub proof fn lemma_union_parts(&self, o: &Self)
        requires
            self.union_fits(o),
        ensures
            self.spec_union(o).left() == min_int(self.left(), o.left()),
            self.spec_union(o).top() == min_int(self.top(), o.top()),
            self.spec_union(o).right_edge() == max_int(self.right_edge(), o.right_edge()),
            self.spec_union(o).bottom_edge() == max_int(self.bottom_edge(), o.bottom_edge()),
            self.spec_union(o).fits(),
    {
    }

    pub fn union(&self, o: &Self) -> (u: Self)
        requires
            self.union_fits(o),
        ensures
            u == self.spec_union(o),
            u.left() == min_int(self.left(), o.left()),
            u.top() == min_int(self.top(), o.top()),
            u.right_edge() == max_int(self.right_edge(), o.right_edge()),
            u.bottom_edge() == max_int(self.bottom_edge(), o.bottom_edge()),
    {
        let x = if self.x <= o.x {
            self.x
        } else {
            o.x
        };
        let y = if self.y <= o.y {
            self.y
        } else {
            o.y
        };
        let sr = self.right();
        let or = o.right();
        let sb = self.bottom();
        let ob = o.bottom();
        let r = if sr >= or {
            sr
        } else {
            or
        };
        let b = if sb >= ob {
            sb
        } else {
            ob
        };
        let width = (r - x as i32) as u16;
        let height = (b - y as i32) as u16;
        Self::new(x, y, width, height)
    }

    /// The overlapping area of two rectangles, when it is not empty.
    pub open spec fn spec_intersect(&self, o: &Self) -> Option<Rect> {
        let l = max_int(self.left(), o.left());
        let r = min_int(self.right_edge(), o.right_edge());
        let t = max_int(self.top(), o.top());
        let b = min_int(self.bottom_edge(), o.bottom_edge());
        if l >= r || t >= b {
            None
        } else {
            Some(Rect::from_parts(l as i16, t as i16, (r - l) as u16, (b - t) as u16))
        }
    }

    /// A non-empty overlap has its right and bottom side within 16 bits.
    pub open spec fn intersect_fits(&self, o: &Self) -> bool {
        self.spec_intersect(o) is Some ==> min_int(self.right_edge(), o.right_edge()) <= 0xFFFF
            && min_int(self.bottom_edge(), o.bottom_edge()) <= 0xFFFF
    }

    pub fn intersect(&self, o: &Self) -> (r: Option<Self>)
        requires
            self.intersect_fits(o),
        ensures
            r == self.spec_intersect(o),
            r is None <==> (max_int(self.left(), o.left()) >= min_int(self.right_edge(), o.right_edge())
                || max_int(self.top(), o.top()) >= min_int(self.bottom_edge(), o.bottom_edge())),
            r matches Some(q) ==> {
                &&& q.left() == max_int(self.left(), o.left())
                &&& q.top() == max_int(self.top(), o.top())
                &&& q.right_edge() == min_int(self.right_edge(), o.right_edge())
                &&& q.bottom_edge() == min_int(self.bottom_edge(), o.bottom_edge())
            },
    {
        let max_left = if self.x >= o.x {
            self.x
        } else {
            o.x
        };
        let sr = self.right();
        let or = o.right();
        let min_right = if sr <= or {
            sr
        } else {
            or
        };
        let max_top = if self.y >= o.y {
            self.y
        } else {
            o.y
        };
        let sb = self.bottom();
        let ob = o.bottom();
        let min_bottom = if sb <= ob {
            sb
        } else {
            ob
        };
        if max_left as i32 >= min_right || max_top as i32 >= min_bottom {
            return None;
        }
        Some(
            Rect::new(
                max_left,
                max_top,
                (min_right - max_left as i32) as u16,
                (min_bottom - max_top as i32) as u16,
            ),
        )
    }

    /// Moves the origin by the given offsets, saturating at the bounds of `i16`.
    pub fn translate(&mut self, dx: i16, dy: i16)
        ensures
            final(self).left() == saturate_i16(old(self).left() + dx),
            final(self).top() == saturate_i16(old(self).top() + dy),
            final(self).w() == old(self).w(),
            final(self).h() == old(self).h(),
    {
        self.x = saturating_add_i16(self.x, dx);
        self.y = saturating_add_i16(self.y, dy);
    }
}

/// Smallest left side among the rectangles.
pub open spec fn seq_min_left(s: Seq<Rect>) -> int
    decreases s.len(),
{
    if s.len() <= 1 {
        if s.len() == 1 {
            s[0].left()
        } else {
            0
        }
    } else {
        min_int(seq_min_left(s.drop_last()), s.last().left())
    }
}

/// Smallest top side among the rectangles.
pub open spec fn seq_min_top(s: Seq<Rect>) -> int
    decreases s.len(),
{
    if s.len() <= 1 {
        if s.len() == 1 {
            s[0].top()
        } else {
            0
        }
    } else {
        min_int(seq_min_top(s.drop_last()), s.last().top())
    }
}

/// Largest right side among the rectangles.
pub open spec fn seq_max_right(s: Seq<Rect>) -> int
    decreases s.len(),
{
    if s.len() <= 1 {
        if s.len() == 1 {
            s[0].right_edge()
        } else {
            0
        }
    } else {
        max_int(seq_max_right(s.drop_last()), s.last().right_edge())
    }
}

/// Largest bottom side among the rectangles.
pub open spec fn seq_max_bottom(s: Seq<Rect>) -> int
    decreases s.len(),
{
    if s.len() <= 1 {
        if s.len() == 1 {
            s[0].bottom_edge()
        } else {
            0
        }
    } else {
        max_int(seq_max_bottom(s.drop_last()), s.last().bottom_edge())
    }
}

/// The rectangle covering all rectangles, folded from the left; the default
/// rectangle when there is none.
pub open spec fn spec_bounds(s: Seq<Rect>) -> Rect
    decreases s.len(),
{
    if s.len() == 0 {
        Rect::from_parts(0, 0, 0, 0)
    } else if s.len() == 1 {
        s[0]
    } else {
        spec_bounds(s.drop_last()).spec_union(&s.last())
    }
}

/// The covering rectangle of all rectangles has a width, height, right and bottom
/// side within 16 bits.
pub open spec fn bounds_fit(s: Seq<Rect>) -> bool {
    s.len() > 0 ==> {
        &&& seq_max_right(s) - seq_min_left(s) <= u16::MAX
        &&& seq_max_bottom(s) - seq_min_top(s) <= u16::MAX
        &&& seq_max_right(s) <= 0xFFFF
        &&& seq_max_bottom(s) <= 0xFFFF
    }
}

proof fn lemma_prefix_extremes(s: Seq<Rect>, k: int)
    requires
        1 <= k <= s.len(),
    ensures
        seq_min_left(s.take(k)) >= seq_min_left(s),
        seq_min_top(s.take(k)) >= seq_min_top(s),
        seq_max_right(s.take(k)) <= seq_max_right(s),
        seq_max_bottom(s.take(k)) <= seq_max_bottom(s),
    decreases s.len(),
{
    if k == s.len() {
        assert(s.take(k) =~= s);
    } else {
        let p = s.drop_last();
        assert(s.take(k) =~= p.take(k));
        lemma_prefix_extremes(p, k);
    }
}

proof fn lemma_bounds_parts(s: Seq<Rect>)
    requires
        s.len() >= 1,
        bounds_fit(s),
    ensures
        spec_bounds(s).left() == seq_min_left(s),
        spec_bounds(s).top() == seq_min_top(s),
        spec_bounds(s).right_edge() == seq_max_right(s),
        spec_bounds(s).bottom_edge() == seq_max_bottom(s),
    decreases s.len(),
{
    if s.len() > 1 {
        let p = s.drop_last();
        lemma_prefix_extremes(s, s.len() - 1);
        assert(s.take(s.len() - 1) =~= p);
        lemma_bounds_parts(p);
        spec_bounds(p).lemma_union_parts(&s.last());
    }
}

/// Every rectangle of a list lies within the bounds of the list.
pub proof fn lemma_bounds_cover(s: Seq<Rect>, i: int)
    requires
        bounds_fit(s),
        0 <= i < s.len(),
    ensures
        spec_bounds(s).left() <= s[i].left(),
        spec_bounds(s).top() <= s[i].top(),
        s[i].right_edge() <= spec_bounds(s).right_edge(),
        s[i].bottom_edge() <= spec_bounds(s).bottom_edge(),
    decreases s.len(),
{
    lemma_bounds_parts(s);
    if i < s.len() - 1 {
        let p = s.drop_last();
        lemma_prefix_extremes(s, s.len() - 1);
        assert(s.take(s.len() - 1) =~= p);
        lemma_bounds_cover(p, i);
        lemma_bounds_parts(p);
    }
}

impl Rect {
    /// The rectangle covering all given rectangles; the default rectangle for none.
    pub fn bounds(rects: Vec<Rect>) -> (r: Rect)
        requires
            bounds_fit(rects@),
        ensures
            r == spec_bounds(rects@),
            r.left() == seq_min_left(rects@),
            r.top() == seq_min_top(rects@),
            r.right_edge() == seq_max_right(rects@),
            r.bottom_edge() == seq_max_bottom(rects@),
    {
        if rects.len() == 0 {
            return Rect::default();
        }
        proof {
            lemma_bounds_parts(rects@);
        }
        let mut acc = rects[0];
        let mut i: usize = 1;
        assert(rects@.take(1) =~= seq![rects@[0]]);
        while i < rects.len()
            invariant
                1 <= i <= rects.len(),
                acc == spec_bounds(rects@.take(i as int)),
                bounds_fit(rects@),
            decreases rects.len() - i,
        {
            let ghost s = rects@;
            proof {
                lemma_prefix_extremes(s, i as int);
                lemma_prefix_extremes(s, i + 1);
                lemma_bounds_parts(s.take(i as int));
                assert(s.take(i + 1).drop_last() =~= s.take(i as int));
                assert(s.take(i + 1).last() == s[i as int]);
            }
            acc = acc.union(&rects[i]);
            i += 1;
        }
        assert(rects@.take(rects.len() as int) =~= rects@);
        acc
    }
}

/// Clamps an integer into the range of `i16`.
pub open spec fn saturate_i16(v: int) -> int {
    if v > i16::MAX {
        i16::MAX as int
    } else if v < i16::MIN {
        i16::MIN as int
    } else {
        v
    }
}

/// Saturating addition on `i16`.
pub fn saturating_add_i16(a: i16, b: i16) -> (r: i16)
    ensures
        r == saturate_i16(a + b),
{
    let s = a as i32 + b as i32;
    if s > i16::MAX as i32 {
        i16::MAX
    } else if s < i16::MIN as i32 {
        i16::MIN
    } else {
        s as i16
    }
}

impl Default for Rect {
    fn default() -> (r: Self)
        ensures
            r == Rect::from_parts(0, 0, 0, 0),
    {
        Rect { x: 0, y: 0, width: 0, height: 0 }
    }
}

} // verus!

verus! {

/// Union is commutative.
pub proof fn lemma_union_commutative(a: Rect, b: Rect)
    requires
        a.union_fits(&b),
    ensures
        b.union_fits(&a),
        a.spec_union(&b) == b.spec_union(&a),
{
    a.lemma_union_parts(&b);
    b.lemma_union_parts(&a);
    Rect::lemma_ext_eq(a.spec_union(&b), b.spec_union(&a));
}

/// The union of a rectangle with itself is that rectangle.
pub proof fn lemma_union_idempotent(a: Rect)
    requires
        a.fits(),
    ensures
        a.union_fits(&a),
        a.spec_union(&a) == a,
{
    a.lemma_union_parts(&a);
    Rect::lemma_ext_eq(a.spec_union(&a), a);
}

/// Every point of either rectangle lies in their union.
pub proof fn lemma_union_covers(a: Rect, b: Rect, x: int, y: int)
    requires
        a.union_fits(&b),
        a.contains_point(x, y) || b.contains_point(x, y),
    ensures
        a.spec_union(&b).contains_point(x, y),
{
    a.lemma_union_parts(&b);
}

/// Intersection is commutative.
pub proof fn lemma_intersect_commutative(a: Rect, b: Rect)
    ensures
        a.spec_intersect(&b) == b.spec_intersect(&a),
{
    if let Some(r) = a.spec_intersect(&b) {
        let q = b.spec_intersect(&a).unwrap();
        Rect::lemma_ext_eq(r, q);
    }
}

/// The intersection is empty exactly when the rectangles do not overlap with a
/// positive area; otherwise every point of it lies in both rectangles.
pub proof fn lemma_intersect_within(a: Rect, b: Rect, x: int, y: int)
    ensures
        a.spec_intersect(&b) is None <==> (max_int(a.left(), b.left()) >= min_int(
            a.right_edge(),
            b.right_edge(),
        ) || max_int(a.top(), b.top()) >= min_int(a.bottom_edge(), b.bottom_edge())),
        a.spec_intersect(&b) matches Some(r) ==> (r.contains_point(x, y) ==> a.contains_point(
            x,
            y,
        ) && b.contains_point(x, y)),
{
}

/// The bounds of a single rectangle are that rectangle.
pub proof fn lemma_bounds_single(r: Rect)
    ensures
        spec_bounds(seq![r]) == r,
{
}

} // verus!
