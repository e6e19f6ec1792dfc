use vstd::prelude::*;

use crate::mode::Mode;

verus! {

/// The mode has the given resolution.
pub open spec fn has_res(m: Mode, width: u16, height: u16) -> bool {
    m.spec_width() == width && m.spec_height() == height
}

/// The modes have the same resolution.
pub open spec fn same_res(a: Mode, b: Mode) -> bool {
    has_res(b, a.spec_width(), a.spec_height())
}

/// The modes with (`keep`) or without (`!keep`) the given resolution, in order.
pub open spec fn select_res(s: Seq<Mode>, width: u16, height: u16, keep: bool) -> Seq<Mode>
    decreases s.len(),
{
    if s.len() == 0 {
        seq![]
    } else {
        let p = select_res(s.drop_last(), width, height, keep);
        if has_res(s.last(), width, height) == keep {
            p.push(s.last())
        } else {
            p
        }
    }
}

/// Some mode of the list has the given resolution.
pub open spec fn seq_has_res(s: Seq<Mode>, width: u16, height: u16) -> bool {
    exists|i: int| 0 <= i < s.len() && has_res(#[trigger] s[i], width, height)
}

/// The first mode of each resolution, in order of appearance.
pub open spec fn spec_resolutions(s: Seq<Mode>) -> Seq<Mode>
    decreases s.len(),
{
    if s.len() == 0 {
        seq![]
    } else {
        let p = spec_resolutions(s.drop_last());
        if seq_has_res(p, s.last().spec_width(), s.last().spec_height()) {
            p
        } else {
            p.push(s.last())
        }
    }
}

/// The order in which scrolling walks through the modes: the first mode, the other
/// modes of its resolution, then all remaining modes, each group in list order.
pub open spec fn spec_scroll_modes(s: Seq<Mode>) -> Seq<Mode> {
    if s.len() == 0 {
        seq![]
    } else {
        let f = s[0];
        let rest = s.subrange(1, s.len() as int);
        seq![f] + select_res(rest, f.spec_width(), f.spec_height(), true) + select_res(
            rest,
            f.spec_width(),
            f.spec_height(),
            false,
        )
    }
}

/// `i` is the first position of a mode with the given id.
pub open spec fn is_first_id(s: Seq<Mode>, id: u32, i: int) -> bool {
    &&& 0 <= i < s.len()
    &&& s[i].spec_id() == id
    &&& forall|j: int| 0 <= j < i ==> (#[trigger] s[j]).spec_id() != id
}

/// `i` is the last position of a mode with the given id.
pub open spec fn is_last_id(s: Seq<Mode>, id: u32, i: int) -> bool {
    &&& 0 <= i < s.len()
    &&& s[i].spec_id() == id
    &&& forall|j: int| i < j < s.len() ==> (#[trigger] s[j]).spec_id() != id
}

/// The mode following the first mode with the given id.
pub open spec fn spec_next_in(s: Seq<Mode>, id: u32) -> Option<Mode> {
    if exists|i: int| is_first_id(s, id, i) && i + 1 < s.len() {
        let i = choose|i: int| is_first_id(s, id, i) && i + 1 < s.len();
        Some(s[i + 1])
    } else {
        None
    }
}

/// The mode preceding the last mode with the given id.
pub open spec fn spec_prev_in(s: Seq<Mode>, id: u32) -> Option<Mode> {
    if exists|i: int| is_last_id(s, id, i) && i >= 1 {
        let i = choose|i: int| is_last_id(s, id, i) && i >= 1;
        Some(s[i - 1])
    } else {
        None
    }
}

proof fn lemma_first_id_unique(s: Seq<Mode>, id: u32, i: int, k: int)
    requires
        is_first_id(s, id, i),
        is_first_id(s, id, k),
    ensures
        i == k,
{
    if i < k {
        assert(s[i].spec_id() != id);
    } else if k < i {
        assert(s[k].spec_id() != id);
    }
}

proof fn lemma_last_id_unique(s: Seq<Mode>, id: u32, i: int, k: int)
    requires
        is_last_id(s, id, i),
        is_last_id(s, id, k),
    ensures
        i == k,
{
    if i < k {
        assert(s[k].spec_id() != id);
    } else if k < i {
        assert(s[i].spec_id() != id);
    }
}

/// The modes of an output, in the order the X server lists them.
pub struct Modes {
    modes: Vec<Mode>,
}

impl View for Modes {
    type V = Seq<Mode>;

    closed spec fn view(&self) -> Seq<Mode> {
        self.modes@
    }
}

impl Modes {
    /// Positions of modes are 32-bit numbers.
    #[verifier::type_invariant]
    spec fn inv(self) -> bool {
        self.modes@.len() <= u32::MAX
    }

    pub fn new() -> (r: Modes)
        ensures
            r@ == Seq::<Mode>::empty(),
    {
        Modes { modes: Vec::new() }
    }

    pub fn len(&self) -> (r: usize)
        ensures
            r == self@.len(),
            r <= u32::MAX,
    {
        proof {
            use_type_invariant(self);
        }
        self.modes.len()
    }

    /// The mode at the given position.
    pub fn get(&self, i: usize) -> (r: Mode)
        requires
            i < self@.len(),
        ensures
            r == self@[i as int],
    {
        self.modes[i]
    }

    pub fn first(&self) -> (r: Option<Mode>)
        ensures
            r == (if self@.len() > 0 {
                Some(self@[0])
            } else {
                None
            }),
    {
        if self.modes.len() > 0 {
            Some(self.modes[0])
        } else {
            None
        }
    }

    pub fn append(&mut self, mode: &Mode)
        requires
            old(self)@.len() < u32::MAX,
        ensures
            final(self)@ == old(self)@.push(*mode),
    {
        let mut modes = Vec::new();
        std::mem::swap(&mut modes, &mut self.modes);
        modes.push(*mode);
        self.modes = modes;
    }

    /// The first mode with the given id.
    pub fn find_by_id(&self, mode: u32) -> (r: Option<Mode>)
        ensures
            match r {
                Some(m) => exists|i: int| is_first_id(self@, mode, i) && self@[i] == m,
                None => forall|i: int| 0 <= i < self@.len() ==> (#[trigger] self@[i]).spec_id() != mode,
            },
    {
        let mut i: usize = 0;
        while i < self.modes.len()
            invariant
                0 <= i <= self.modes@.len(),
                forall|j: int| 0 <= j < i ==> (#[trigger] self.modes@[j]).spec_id() != mode,
            decreases self.modes@.len() - i,
        {
            if self.modes[i].id() == mode {
                assert(is_first_id(self@, mode, i as int));
                return Some(self.modes[i]);
            }
            i += 1;
        }
        None
    }

    /// Position of the first mode with the given resolution.
    pub fn position_by_res(&self, width: u16, height: u16) -> (r: Option<u32>)
        ensures
            match r {
                Some(i) => i < self@.len() && has_res(self@[i as int], width, height) && forall|j: int|
                    0 <= j < i ==> !has_res(#[trigger] self@[j], width, height),
                None => !seq_has_res(self@, width, height),
            },
    {
        proof {
            use_type_invariant(self);
        }
        let mut i: usize = 0;
        while i < self.modes.len()
            invariant
                0 <= i <= self.modes@.len(),
                self.modes@.len() <= u32::MAX,
                forall|j: int| 0 <= j < i ==> !has_res(#[trigger] self.modes@[j], width, height),
            decreases self.modes@.len() - i,
        {
            if self.modes[i].width() == width && self.modes[i].height() == height {
                return Some(i as u32);
            }
            i += 1;
        }
        None
    }

    /// Whether some mode has the given resolution.
    pub fn contains_res(&self, width: u16, height: u16) -> (r: bool)
        ensures
            r == seq_has_res(self@, width, height),
    {
        self.position_by_res(width, height).is_some()
    }

    /// Position of the first mode equal to the given mode.
    pub fn position(&self, mode: &Mode) -> (r: Option<u32>)
        ensures
            match r {
                Some(i) => i < self@.len() && self@[i as int] == *mode && forall|j: int|
                    0 <= j < i ==> #[trigger] self@[j] != *mode,
                None => forall|j: int| 0 <= j < self@.len() ==> #[trigger] self@[j] != *mode,
            },
    {
        proof {
            use_type_invariant(self);
        }
        let mut i: usize = 0;
        while i < self.modes.len()
            invariant
                0 <= i <= self.modes@.len(),
                self.modes@.len() <= u32::MAX,
                forall|j: int| 0 <= j < i ==> #[trigger] self.modes@[j] != *mode,
            decreases self.modes@.len() - i,
        {
            if self.modes[i] == *mode {
                return Some(i as u32);
            }
            i += 1;
        }
        None
    }

    /// The first mode of each resolution, in order of appearance.
    pub fn resolutions(&self) -> (r: Modes)
        ensures
            r@ == spec_resolutions(self@),
    {
        proof {
            use_type_invariant(self);
        }
        let mut resolution_modes = Modes::new();
        let mut i: usize = 0;
        while i < self.modes.len()
            invariant
                0 <= i <= self.modes@.len(),
                self.modes@.len() <= u32::MAX,
                resolution_modes@ == spec_resolutions(self.modes@.take(i as int)),
                resolution_modes@.len() <= i,
            decreases self.modes@.len() - i,
        {
            let mode = self.modes[i];
            let ghost s = self.modes@;
            proof {
                assert(s.take(i + 1).drop_last() =~= s.take(i as int));
            }
            if !resolution_modes.contains_res(mode.width(), mode.height()) {
                resolution_modes.append(&mode);
            }
            i += 1;
        }
        assert(self.modes@.take(self.modes@.len() as int) =~= self.modes@);
        resolution_modes
    }

    /// The modes with the resolution of `res_mode`, in order.
    pub fn refresh_rates(&self, res_mode: &Mode) -> (r: Modes)
        ensures
            r@ == select_res(self@, res_mode.spec_width(), res_mode.spec_height(), true),
    {
        proof {
            use_type_invariant(self);
        }
        let w = res_mode.width();
        let h = res_mode.height();
        let mut refresh_rate_modes = Modes::new();
        let mut i: usize = 0;
        while i < self.modes.len()
            invariant
                0 <= i <= self.modes@.len(),
                self.modes@.len() <= u32::MAX,
                w == res_mode.spec_width(),
                h == res_mode.spec_height(),
                refresh_rate_modes@ == select_res(self.modes@.take(i as int), w, h, true),
                refresh_rate_modes@.len() <= i,
            decreases self.modes@.len() - i,
        {
            let mode = self.modes[i];
            let ghost s = self.modes@;
            proof {
                assert(s.take(i + 1).drop_last() =~= s.take(i as int));
                lemma_select_len(s.take(i + 1), w, h, true);
            }
            if mode.width() == w && mode.height() == h {
                refresh_rate_modes.append(&mode);
            }
            i += 1;
        }
        assert(self.modes@.take(self.modes@.len() as int) =~= self.modes@);
        refresh_rate_modes
    }

    fn scroll_modes(&self) -> (r: Vec<Mode>)
        ensures
            r@ == spec_scroll_modes(self@),
    {
        let mut modes: Vec<Mode> = Vec::new();
        let mut other_modes: Vec<Mode> = Vec::new();
        if self.modes.len() > 0 {
            let first = self.modes[0];
            modes.push(first);
            let w = first.width();
            let h = first.height();
            let n = self.modes.len();
            let ghost rest = self.modes@.subrange(1, n as int);
            let mut i: usize = 1;
            while i < n
                invariant
                    1 <= i <= n,
                    n == self.modes@.len(),
                    rest == self.modes@.subrange(1, n as int),
                    w == first.spec_width(),
                    h == first.spec_height(),
                    modes@ == seq![first] + select_res(rest.take(i - 1), w, h, true),
                    other_modes@ == select_res(rest.take(i - 1), w, h, false),
                decreases n - i,
            {
                let m = self.modes[i];
                proof {
                    assert(rest.take(i as int).drop_last() =~= rest.take(i - 1));
                    assert(rest.take(i as int).last() == m);
                }
                if m.width() == w && m.height() == h {
                    modes.push(m);
                } else {
                    other_modes.push(m);
                }
                i += 1;
            }
            assert(rest.take(n - 1) =~= rest);
        }
        modes.append(&mut other_modes);
        modes
    }

    /// The mode after `mode` in scroll order.
    pub fn next_scroll_mode(&self, mode: &Mode) -> (r: Option<Mode>)
        ensures
            r == spec_next_in(spec_scroll_modes(self@), mode.spec_id()),
    {
        let modes = self.scroll_modes();
        let ghost s = modes@;
        let id = mode.id();
        let mut i: usize = 0;
        while i < modes.len()
            invariant
                0 <= i <= modes@.len(),
                s == modes@,
                s == spec_scroll_modes(self@),
                id == mode.spec_id(),
                forall|j: int| 0 <= j < i ==> (#[trigger] modes@[j]).spec_id() != id,
            decreases modes@.len() - i,
        {
            if modes[i].id() == id {
                assert(is_first_id(s, id, i as int));
                if i + 1 < modes.len() {
                    proof {
                        let k = choose|k: int| is_first_id(s, id, k) && k + 1 < s.len();
                        lemma_first_id_unique(s, id, i as int, k);
                    }
                    return Some(modes[i + 1]);
                } else {
                    proof {
                        if exists|k: int| is_first_id(s, id, k) && k + 1 < s.len() {
                            let k = choose|k: int| is_first_id(s, id, k) && k + 1 < s.len();
                            lemma_first_id_unique(s, id, i as int, k);
                        }
                    }
                    return None;
                }
            }
            i += 1;
        }
        None
    }

    /// The mode before `mode` in scroll order.
    pub fn prev_scroll_mode(&self, mode: &Mode) -> (r: Option<Mode>)
        ensures
            r == spec_prev_in(spec_scroll_modes(self@), mode.spec_id()),
    {
        let modes = self.scroll_modes();
        let ghost s = modes@;
        let id = mode.id();
        let mut i: usize = modes.len();
        while i > 0
            invariant
                0 <= i <= modes@.len(),
                s == modes@,
                s == spec_scroll_modes(self@),
                id == mode.spec_id(),
                forall|j: int| i <= j < modes@.len() ==> (#[trigger] modes@[j]).spec_id() != id,
            decreases i,
        {
            let k = i - 1;
            if modes[k].id() == id {
                assert(is_last_id(s, id, k as int));
                if k >= 1 {
                    proof {
                        let q = choose|q: int| is_last_id(s, id, q) && q >= 1;
                        lemma_last_id_unique(s, id, k as int, q);
                    }
                    return Some(modes[k - 1]);
                } else {
                    proof {
                        if exists|q: int| is_last_id(s, id, q) && q >= 1 {
                            let q = choose|q: int| is_last_id(s, id, q) && q >= 1;
                            lemma_last_id_unique(s, id, k as int, q);
                        }
                    }
                    return None;
                }
            }
            i = k;
        }
        None
    }
}

impl Default for Modes {
    fn default() -> (r: Self)
        ensures
            r@ == Seq::<Mode>::empty(),
    {
        Modes::new()
    }
}

proof fn lemma_select_len(s: Seq<Mode>, width: u16, height: u16, keep: bool)
    ensures
        select_res(s, width, height, keep).len() <= s.len(),
    decreases s.len(),
{
    if s.len() > 0 {
        lemma_select_len(s.drop_last(), width, height, keep);
    }
}

} // verus!

verus! {

/// Each resolution occurs at most once among the resolutions of a list of modes.
pub proof fn lemma_resolutions_distinct(s: Seq<Mode>)
    ensures
        forall|i: int, j: int|
            0 <= i < j < spec_resolutions(s).len() ==> !same_res(
                #[trigger] spec_resolutions(s)[i],
                #[trigger] spec_resolutions(s)[j],
            ),
    decreases s.len(),
{
    if s.len() > 0 {
        let p = s.drop_last();
        lemma_resolutions_distinct(p);
        let rp = spec_resolutions(p);
        let r = spec_resolutions(s);
        assert forall|i: int, j: int| 0 <= i < j < r.len() implies !same_res(
            #[trigger] r[i],
            #[trigger] r[j],
        ) by {
            if j < rp.len() {
                assert(r[i] == rp[i] && r[j] == rp[j]);
            } else {
                assert(r[i] == rp[i]);
                assert(!has_res(rp[i], s.last().spec_width(), s.last().spec_height()));
            }
        }
    }
}

/// Every mode's resolution occurs among the resolutions, and every entry of the
/// resolutions is one of the modes.
pub proof fn lemma_resolutions_cover(s: Seq<Mode>)
    ensures
        forall|i: int|
            0 <= i < s.len() ==> seq_has_res(
                spec_resolutions(s),
                (#[trigger] s[i]).spec_width(),
                s[i].spec_height(),
            ),
        forall|k: int|
            0 <= k < spec_resolutions(s).len() ==> s.contains(#[trigger] spec_resolutions(s)[k]),
    decreases s.len(),
{
    if s.len() > 0 {
        let p = s.drop_last();
        lemma_resolutions_cover(p);
        let rp = spec_resolutions(p);
        let r = spec_resolutions(s);
        assert forall|i: int| 0 <= i < s.len() implies seq_has_res(
            r,
            (#[trigger] s[i]).spec_width(),
            s[i].spec_height(),
        ) by {
            if i < s.len() - 1 {
                assert(p[i] == s[i]);
                let k = choose|k: int|
                    0 <= k < rp.len() && has_res(#[trigger] rp[k], p[i].spec_width(), p[i].spec_height());
                assert(r[k] == rp[k]);
            } else if !seq_has_res(rp, s.last().spec_width(), s.last().spec_height()) {
                assert(r[rp.len() as int] == s.last());
            }
        }
        assert forall|k: int| 0 <= k < r.len() implies s.contains(#[trigger] r[k]) by {
            if k < rp.len() {
                assert(r[k] == rp[k]);
                let i = choose|i: int| 0 <= i < p.len() && p[i] == rp[k];
                assert(s[i] == p[i]);
            } else {
                assert(r[k] == s[s.len() - 1]);
            }
        }
    }
}

/// The modes selected for a resolution are exactly the modes of that resolution.
pub proof fn lemma_select_res_members(s: Seq<Mode>, width: u16, height: u16)
    ensures
        forall|k: int|
            0 <= k < select_res(s, width, height, true).len() ==> has_res(
                #[trigger] select_res(s, width, height, true)[k],
                width,
                height,
            ) && s.contains(select_res(s, width, height, true)[k]),
        forall|i: int|
            0 <= i < s.len() && has_res(#[trigger] s[i], width, height) ==> select_res(
                s,
                width,
                height,
                true,
            ).contains(s[i]),
    decreases s.len(),
{
    if s.len() > 0 {
        let p = s.drop_last();
        lemma_select_res_members(p, width, height);
        let q = select_res(p, width, height, true);
        let r = select_res(s, width, height, true);
        assert forall|k: int| 0 <= k < r.len() implies has_res(#[trigger] r[k], width, height)
            && s.contains(r[k]) by {
            if k < q.len() {
                assert(r[k] == q[k]);
                let i = choose|i: int| 0 <= i < p.len() && p[i] == q[k];
                assert(s[i] == p[i]);
            } else {
                assert(r[k] == s[s.len() - 1]);
            }
        }
        assert forall|i: int| 0 <= i < s.len() && has_res(#[trigger] s[i], width, height) implies r.contains(
            s[i],
        ) by {
            if i < s.len() - 1 {
                assert(p[i] == s[i]);
                let k = choose|k: int| 0 <= k < q.len() && q[k] == p[i];
                assert(r[k] == q[k]);
            } else {
                assert(r[r.len() - 1] == s[i]);
            }
        }
    }
}

/// No two modes of the list share an id.
pub open spec fn ids_distinct(s: Seq<Mode>) -> bool {
    forall|i: int, j: int| 0 <= i < j < s.len() ==> (#[trigger] s[i]).spec_id() != (#[trigger] s[j]).spec_id()
}

/// Number of modes with the given id.
pub open spec fn count_id(s: Seq<Mode>, id: u32) -> nat
    decreases s.len(),
{
    if s.len() == 0 {
        0
    } else {
        count_id(s.drop_last(), id) + if s.last().spec_id() == id {
            1nat
        } else {
            0nat
        }
    }
}

proof fn lemma_count_concat(a: Seq<Mode>, b: Seq<Mode>, id: u32)
    ensures
        count_id(a + b, id) == count_id(a, id) + count_id(b, id),
    decreases b.len(),
{
    if b.len() == 0 {
        assert(a + b =~= a);
    } else {
        assert((a + b).drop_last() =~= a + b.drop_last());
        lemma_count_concat(a, b.drop_last(), id);
    }
}

proof fn lemma_count_select(s: Seq<Mode>, width: u16, height: u16, id: u32)
    ensures
        count_id(select_res(s, width, height, true), id) + count_id(
            select_res(s, width, height, false),
            id,
        ) == count_id(s, id),
    decreases s.len(),
{
    if s.len() > 0 {
        lemma_count_select(s.drop_last(), width, height, id);
        let t = select_res(s.drop_last(), width, height, true);
        let f = select_res(s.drop_last(), width, height, false);
        assert(t.push(s.last()).drop_last() =~= t);
        assert(f.push(s.last()).drop_last() =~= f);
    }
}

proof fn lemma_count_scroll(s: Seq<Mode>, id: u32)
    ensures
        count_id(spec_scroll_modes(s), id) == count_id(s, id),
{
    if s.len() > 0 {
        let f = s[0];
        let rest = s.subrange(1, s.len() as int);
        let t = select_res(rest, f.spec_width(), f.spec_height(), true);
        let o = select_res(rest, f.spec_width(), f.spec_height(), false);
        assert(spec_scroll_modes(s) == seq![f] + t + o);
        lemma_count_concat(seq![f] + t, o, id);
        lemma_count_concat(seq![f], t, id);
        lemma_count_select(rest, f.spec_width(), f.spec_height(), id);
        assert(s =~= seq![f] + rest);
        lemma_count_concat(seq![f], rest, id);
    }
}

proof fn lemma_count_zero(s: Seq<Mode>, id: u32)
    requires
        forall|i: int| 0 <= i < s.len() ==> (#[trigger] s[i]).spec_id() != id,
    ensures
        count_id(s, id) == 0,
    decreases s.len(),
{
    if s.len() > 0 {
        lemma_count_zero(s.drop_last(), id);
    }
}

proof fn lemma_count_pos(s: Seq<Mode>, id: u32, i: int)
    requires
        0 <= i < s.len(),
        s[i].spec_id() == id,
    ensures
        count_id(s, id) >= 1,
    decreases s.len(),
{
    if i < s.len() - 1 {
        lemma_count_pos(s.drop_last(), id, i);
    }
}

proof fn lemma_count_two(s: Seq<Mode>, id: u32, i: int, j: int)
    requires
        0 <= i < j < s.len(),
        s[i].spec_id() == id,
        s[j].spec_id() == id,
    ensures
        count_id(s, id) >= 2,
    decreases s.len(),
{
    if j < s.len() - 1 {
        lemma_count_two(s.drop_last(), id, i, j);
    } else {
        lemma_count_pos(s.drop_last(), id, i);
    }
}

proof fn lemma_distinct_count(s: Seq<Mode>, id: u32)
    requires
        ids_distinct(s),
    ensures
        count_id(s, id) <= 1,
    decreases s.len(),
{
    if s.len() > 0 {
        let p = s.drop_last();
        assert(ids_distinct(p)) by {
            assert forall|i: int, j: int| 0 <= i < j < p.len() implies (#[trigger] p[i]).spec_id()
                != (#[trigger] p[j]).spec_id() by {
                assert(p[i] == s[i] && p[j] == s[j]);
            }
        }
        lemma_distinct_count(p, id);
        if s.last().spec_id() == id {
            assert forall|i: int| 0 <= i < p.len() implies (#[trigger] p[i]).spec_id() != id by {
                assert(p[i] == s[i]);
                assert(s[i].spec_id() != s[s.len() - 1].spec_id());
            }
            lemma_count_zero(p, id);
        }
    }
}

proof fn lemma_count_distinct(s: Seq<Mode>)
    requires
        forall|id: u32| #[trigger] count_id(s, id) <= 1,
    ensures
        ids_distinct(s),
{
    assert forall|i: int, j: int| 0 <= i < j < s.len() implies (#[trigger] s[i]).spec_id() != (
    #[trigger] s[j]).spec_id() by {
        if s[i].spec_id() == s[j].spec_id() {
            lemma_count_two(s, s[i].spec_id(), i, j);
            assert(count_id(s, s[i].spec_id()) <= 1);
        }
    }
}

/// Scrolling walks through each mode once: a list without repeated ids keeps them
/// distinct in scroll order.
pub proof fn lemma_scroll_ids_distinct(s: Seq<Mode>)
    requires
        ids_distinct(s),
    ensures
        ids_distinct(spec_scroll_modes(s)),
{
    assert forall|id: u32| #[trigger] count_id(spec_scroll_modes(s), id) <= 1 by {
        lemma_count_scroll(s, id);
        lemma_distinct_count(s, id);
    }
    lemma_count_distinct(spec_scroll_modes(s));
}

/// Scrolling back undoes scrolling forward: when ids are distinct and the mode after
/// the mode with id `id` is `n`, the mode before `n` has id `id`.
pub proof fn lemma_scroll_prev_after_next(s: Seq<Mode>, id: u32)
    requires
        ids_distinct(s),
        spec_next_in(spec_scroll_modes(s), id) is Some,
    ensures
        spec_prev_in(
            spec_scroll_modes(s),
            spec_next_in(spec_scroll_modes(s), id).unwrap().spec_id(),
        ) matches Some(p) && p.spec_id() == id,
{
    let sm = spec_scroll_modes(s);
    lemma_scroll_ids_distinct(s);
    let i = choose|i: int| is_first_id(sm, id, i) && i + 1 < sm.len();
    let n = sm[i + 1];
    assert(is_last_id(sm, n.spec_id(), i + 1));
    let q = choose|q: int| is_last_id(sm, n.spec_id(), q) && q >= 1;
    lemma_last_id_unique(sm, n.spec_id(), i + 1, q);
}

} // verus!
