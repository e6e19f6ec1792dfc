//! The requests that apply a new layout to the X server, and those that restore a
//! saved configuration, computed from the server state before any is sent.

use vstd::prelude::*;

use crate::enums::spec_rotation_mask;
use crate::output::Output;
use crate::outputs::Outputs;
use crate::randr::{CrtcInfo, RandrState, Scale, ScreenSize};
use vstd::std_specs::hash::{builds_valid_hashers, obeys_key_model};
use vstd::std_specs::iter::IteratorSpec;

verus! {

broadcast use vstd::std_specs::hash::group_hash_axioms;

/// A request sent to the X server to change its configuration.
#[derive(Clone, Copy, Debug, PartialEq, Eq, Structural)]
pub enum RandrRequest {
    /// Switches a CRTC off.
    DisableCrtc { crtc: u32 },
    /// Sets the size of the screen of the given root window.
    SetScreenSize { window: u32, size: ScreenSize },
    /// Sets the scale of a CRTC.
    SetCrtcTransform { crtc: u32, scale: Scale },
    /// Drives an output by a CRTC with a mode and rotation at a position.
    SetCrtcConfig { crtc: u32, x: i16, y: i16, mode: u32, rotation: u16, output: u32 },
    /// Marks an output primary on the given root window; output 0 for none.
    SetPrimary { window: u32, output: u32 },
}

/// The requests that apply a layout. When `complete` is false, the layout cannot be
/// applied in full: after the requests are sent, the application has failed.
pub struct ApplyPlan {
    pub requests: Vec<RandrRequest>,
    pub complete: bool,
}

/// A CRTC as it was before changes were applied, with its transform.
pub struct SavedCrtc {
    pub id: u32,
    pub info: CrtcInfo,
    pub transform: Scale,
}

/// The configuration saved before changes are applied, to restore it.
pub struct Snapshot {
    pub root: u32,
    pub screen_size: ScreenSize,
    pub crtcs: Vec<SavedCrtc>,
}

/// One request that switches each CRTC off.
pub open spec fn disable_requests(crtcs: Seq<u32>) -> Seq<RandrRequest> {
    crtcs.map_values(|c: u32| RandrRequest::DisableCrtc { crtc: c })
}

/// The id of the first output marked primary.
pub open spec fn first_primary(s: Seq<Output>) -> Option<u32>
    decreases s.len(),
{
    if s.len() == 0 {
        None
    } else {
        match first_primary(s.drop_last()) {
            Some(id) => Some(id),
            None => if s.last().spec_primary() {
                Some(s.last().spec_id())
            } else {
                None
            },
        }
    }
}

/// Id of the mode of an output; 0 without a mode.
pub open spec fn mode_id(o: Output) -> u32 {
    match o.spec_mode() {
        Some(m) => m.spec_id(),
        None => 0,
    }
}

/// The RandR rotation mask of an output.
pub open spec fn output_rotation(o: Output) -> u16 {
    spec_rotation_mask(o.spec_rotation(), o.spec_reflection())
}

impl RandrState {
    /// The requests that configure one enabled output at position `i`: the transform
    /// of its CRTC, then the CRTC itself if the configuration passes the checks.
    /// `false` when it has no CRTC or is refused.
    pub open spec fn spec_output_step(&self, o: Output, scale: Scale) -> (Seq<RandrRequest>, bool) {
        let rot = output_rotation(o);
        match self.spec_target_crtc(o.spec_id(), rot) {
            None => (seq![], false),
            Some(c) => {
                let t = RandrRequest::SetCrtcTransform { crtc: c, scale };
                if self.spec_validate_crtc(c, mode_id(o), rot, seq![o.spec_id()]) is Ok {
                    (
                        seq![
                            t,
                            RandrRequest::SetCrtcConfig {
                                crtc: c,
                                x: o.spec_x(),
                                y: o.spec_y(),
                                mode: mode_id(o),
                                rotation: rot,
                                output: o.spec_id(),
                            },
                        ],
                        true,
                    )
                } else {
                    (seq![t], false)
                }
            },
        }
    }

    /// The requests that configure the enabled outputs in order, up to the first one
    /// that has no CRTC or is refused; `false` when there is such an output.
    pub open spec fn spec_output_requests(&self, s: Seq<Output>, scales: Seq<Scale>) -> (Seq<
        RandrRequest,
    >, bool)
        decreases s.len(),
    {
        if s.len() == 0 {
            (seq![], true)
        } else {
            let (p, ok) = self.spec_output_requests(s.drop_last(), scales);
            let o = s.last();
            if !ok || !o.spec_enabled() {
                (p, ok)
            } else {
                let (q, ok2) = self.spec_output_step(o, scales[s.len() - 1]);
                (p + q, ok2)
            }
        }
    }

    /// The requests that apply a layout with the given screen size: the CRTCs that
    /// must be off first, the screen size if it changes, the enabled outputs, and
    /// the primary output once every output is configured.
    pub open spec fn spec_apply_plan(&self, s: Seq<Output>, scales: Seq<Scale>, screen: ScreenSize) -> (Seq<
        RandrRequest,
    >, bool) {
        let px = screen.width != self.screen_size.width || screen.height != self.screen_size.height;
        let mm = screen.mwidth != self.screen_size.mwidth || screen.mheight != self.screen_size.mheight;
        let d = disable_requests(self.spec_disable_plan(s, screen, px));
        let z = if px || mm {
            seq![RandrRequest::SetScreenSize { window: self.root, size: screen }]
        } else {
            seq![]
        };
        let (u, ok) = self.spec_output_requests(s, scales);
        if ok {
            (
                d + z + u + seq![
                    RandrRequest::SetPrimary {
                        window: self.root,
                        output: match first_primary(s) {
                            Some(id) => id,
                            None => 0,
                        },
                    },
                ],
                true,
            )
        } else {
            (d + z + u, false)
        }
    }

    /// The requests that bring back one saved CRTC that had a mode: its transform and
    /// configuration with the mode it is restored with, the configuration only if it
    /// passes the checks; none without a mode to restore.
    pub open spec fn spec_restore_step(&self, c: SavedCrtc) -> Seq<RandrRequest> {
        let mode = self.spec_revert_mode(&c.info);
        if c.info.mode == 0 || mode == 0 {
            seq![]
        } else {
            let t = RandrRequest::SetCrtcTransform { crtc: c.id, scale: c.transform };
            if self.spec_validate_crtc(c.id, mode, c.info.rotation, c.info.outputs@) is Ok {
                seq![
                    t,
                    RandrRequest::SetCrtcConfig {
                        crtc: c.id,
                        x: c.info.x,
                        y: c.info.y,
                        mode,
                        rotation: c.info.rotation,
                        output: c.info.outputs@[0],
                    },
                ]
            } else {
                seq![t]
            }
        }
    }

    /// The requests that bring back the saved CRTCs, in order.
    pub open spec fn spec_restore_requests(&self, s: Seq<SavedCrtc>) -> Seq<RandrRequest>
        decreases s.len(),
    {
        if s.len() == 0 {
            seq![]
        } else {
            self.spec_restore_requests(s.drop_last()) + self.spec_restore_step(s.last())
        }
    }

    /// Switches off every CRTC the server knows, each once, in the order in which the
    /// map of CRTCs is walked.
    pub fn disable_all_requests(&self) -> (r: Vec<RandrRequest>)
        ensures
            exists|ks: Seq<u32>|
                ks.no_duplicates() && ks.to_set() == self.crtcs@.dom() && r@ == disable_requests(ks),
    {
        let mut requests: Vec<RandrRequest> = Vec::new();
        let keys = self.crtcs.keys();
        assert(obeys_key_model::<u32>() && builds_valid_hashers::<std::hash::RandomState>());
        let ghost ks = keys.remaining().unref();
        for k in it: keys
            invariant
                ks == it.seq().unref(),
                requests@ == disable_requests(ks.take(it.index())),
        {
            proof {
                assert(ks.take(it.index() + 1) =~= ks.take(it.index()).push(*k));
            }
            requests.push(RandrRequest::DisableCrtc { crtc: *k });
        }
        assert(ks.take(ks.len() as int) =~= ks);
        requests
    }

    /// The requests that configure one enabled output.
    fn output_step(&self, o: &Output, scale: Scale, requests: &mut Vec<RandrRequest>) -> (ok: bool)
        requires
            self.outputs@.contains_key(o.spec_id()),
        ensures
            final(requests)@ == old(requests)@ + self.spec_output_step(*o, scale).0,
            ok == self.spec_output_step(*o, scale).1,
    {
        let rot = o.randr_rotation();
        let crtc = match self.target_crtc(o.id(), rot) {
            Some(c) => c,
            None => return false,
        };
        let mode = match o.mode() {
            Some(m) => m.id(),
            None => 0,
        };
        requests.push(RandrRequest::SetCrtcTransform { crtc, scale });
        let ids = [o.id()];
        assert(ids@ =~= seq![o.spec_id()]);
        match self.validate_crtc_config(crtc, mode, rot, &ids) {
            Ok(()) => {
                requests.push(
                    RandrRequest::SetCrtcConfig {
                        crtc,
                        x: o.x(),
                        y: o.y(),
                        mode,
                        rotation: rot,
                        output: o.id(),
                    },
                );
                true
            },
            Err(_) => false,
        }
    }

    /// The requests that apply a layout, computed before any is sent: the CRTCs that
    /// must be off first, the new screen size if it changes, then for each enabled
    /// output the transform (`scales` holds one per output) and configuration of its
    /// CRTC, and last the primary output. The plan stops early, incomplete, at an
    /// output that finds no CRTC or whose configuration is refused.
    pub fn apply_plan(&self, outputs: &Outputs, screen: ScreenSize, scales: &Vec<Scale>) -> (r: ApplyPlan)
        requires
            self.outputs_known(outputs@),
            scales@.len() == outputs@.len(),
        ensures
            (r.requests@, r.complete) == self.spec_apply_plan(outputs@, scales@, screen),
    {
        let ghost s = outputs@;
        let cur = self.screen_size;
        let px = screen.width != cur.width || screen.height != cur.height;
        let mm = screen.mwidth != cur.mwidth || screen.mheight != cur.mheight;
        let disable = self.disable_plan(outputs, &screen, px);
        let mut requests: Vec<RandrRequest> = Vec::new();
        let mut k: usize = 0;
        while k < disable.len()
            invariant
                0 <= k <= disable@.len(),
                requests@ == disable_requests(disable@.take(k as int)),
            decreases disable@.len() - k,
        {
            proof {
                assert(disable@.take(k + 1) =~= disable@.take(k as int).push(disable@[k as int]));
            }
            requests.push(RandrRequest::DisableCrtc { crtc: disable[k] });
            k += 1;
        }
        assert(disable@.take(disable@.len() as int) =~= disable@);
        if px || mm {
            requests.push(RandrRequest::SetScreenSize { window: self.root, size: screen });
        }
        let ghost head = requests@;
        let mut ok = true;
        let mut primary: Option<u32> = None;
        let mut i: usize = 0;
        while i < outputs.len()
            invariant
                0 <= i <= s.len(),
                s == outputs@,
                scales@.len() == s.len(),
                self.outputs_known(s),
                ok ==> requests@ == head + self.spec_output_requests(s.take(i as int), scales@).0,
                ok ==> self.spec_output_requests(s.take(i as int), scales@).1,
                !ok ==> requests@ == head + self.spec_output_requests(s, scales@).0,
                !ok ==> !self.spec_output_requests(s, scales@).1,
                primary == first_primary(s.take(i as int)),
            decreases s.len() - i,
        {
            let o = outputs.index(i);
            proof {
                assert(s.take(i + 1).drop_last() =~= s.take(i as int));
                assert(s.take(i + 1).last() == s[i as int]);
            }
            if primary.is_none() && o.primary() {
                primary = Some(o.id());
            }
            if ok && o.enabled() {
                let ghost before = requests@;
                let step_ok = self.output_step(o, scales[i], &mut requests);
                if !step_ok {
                    ok = false;
                    proof {
                        lemma_output_requests_stop(*self, s, scales@, i + 1);
                    }
                    assert(requests@ =~= head + self.spec_output_requests(s, scales@).0);
                } else {
                    assert(requests@ =~= head + self.spec_output_requests(s.take(i + 1), scales@).0);
                }
            }
            i += 1;
        }
        assert(s.take(s.len() as int) =~= s);
        if ok {
            let id = match primary {
                Some(id) => id,
                None => 0,
            };
            requests.push(RandrRequest::SetPrimary { window: self.root, output: id });
        }
        ApplyPlan { requests, complete: ok }
    }

    /// The requests that restore a snapshot: every CRTC the server knows is switched
    /// off, each once in the order in which the map of CRTCs is walked; then the saved
    /// screen size is set, and each saved CRTC that had a mode gets its transform and,
    /// if the configuration passes the checks, its configuration with the mode it is
    /// restored with. The requests are sent whether or not earlier ones fail.
    pub fn revert_plan(&self, snapshot: &Snapshot) -> (r: Vec<RandrRequest>)
        ensures
            exists|ks: Seq<u32>|
                {
                    &&& ks.no_duplicates()
                    &&& ks.to_set() == self.crtcs@.dom()
                    &&& r@ == disable_requests(ks) + seq![
                        RandrRequest::SetScreenSize { window: snapshot.root, size: snapshot.screen_size },
                    ] + self.spec_restore_requests(snapshot.crtcs@)
                },
    {
        let mut requests = self.disable_all_requests();
        let ghost d = requests@;
        requests.push(RandrRequest::SetScreenSize { window: snapshot.root, size: snapshot.screen_size });
        let ghost head = requests@;
        let mut i: usize = 0;
        while i < snapshot.crtcs.len()
            invariant
                0 <= i <= snapshot.crtcs@.len(),
                requests@ == head + self.spec_restore_requests(snapshot.crtcs@.take(i as int)),
            decreases snapshot.crtcs@.len() - i,
        {
            let saved = &snapshot.crtcs[i];
            let ghost s = snapshot.crtcs@;
            proof {
                assert(s.take(i + 1).drop_last() =~= s.take(i as int));
                assert(s.take(i + 1).last() == s[i as int]);
            }
            let ghost before = requests@;
            if saved.info.mode != 0 {
                let mode = self.revert_mode(&saved.info);
                if mode != 0 {
                    requests.push(RandrRequest::SetCrtcTransform { crtc: saved.id, scale: saved.transform });
                    let valid = self.validate_crtc_config(
                        saved.id,
                        mode,
                        saved.info.rotation,
                        saved.info.outputs.as_slice(),
                    );
                    if valid.is_ok() {
                        requests.push(
                            RandrRequest::SetCrtcConfig {
                                crtc: saved.id,
                                x: saved.info.x,
                                y: saved.info.y,
                                mode,
                                rotation: saved.info.rotation,
                                output: saved.info.outputs[0],
                            },
                        );
                    }
                }
            }
            assert(requests@ =~= before + self.spec_restore_step(s[i as int]));
            assert(requests@ =~= head + self.spec_restore_requests(s.take(i + 1)));
            i += 1;
        }
        assert(snapshot.crtcs@.take(snapshot.crtcs@.len() as int) =~= snapshot.crtcs@);
        requests
    }
}

/// Once an output stops the configuration, the later outputs add no request.
proof fn lemma_output_requests_stop(st: RandrState, s: Seq<Output>, scales: Seq<Scale>, k: int)
    requires
        0 <= k <= s.len(),
        !st.spec_output_requests(s.take(k), scales).1,
    ensures
        st.spec_output_requests(s, scales) == st.spec_output_requests(s.take(k), scales),
    decreases s.len() - k,
{
    if k < s.len() {
        assert(s.take(k + 1).drop_last() =~= s.take(k));
        lemma_output_requests_stop(st, s, scales, k + 1);
    } else {
        assert(s.take(k) =~= s);
    }
}


/// The request configures a CRTC with a setting that passes the checks.
pub open spec fn config_passes_checks(st: RandrState, r: RandrRequest) -> bool {
    match r {
        RandrRequest::SetCrtcConfig { crtc, mode, rotation, output, .. } => st.spec_validate_crtc(
            crtc,
            mode,
            rotation,
            seq![output],
        ) is Ok,
        _ => true,
    }
}

/// The request configures a CRTC to drive `o` at its position, with its mode and
/// rotation.
pub open spec fn is_config_of(r: RandrRequest, o: Output) -> bool {
    match r {
        RandrRequest::SetCrtcConfig { x, y, mode, rotation, output, .. } => x == o.spec_x() && y
            == o.spec_y() && mode == mode_id(o) && rotation == output_rotation(o) && output
            == o.spec_id(),
        _ => false,
    }
}

/// The requests configure some CRTC to drive `o` at its position, with its mode and
/// rotation.
pub open spec fn configures(reqs: Seq<RandrRequest>, o: Output) -> bool {
    exists|j: int| 0 <= j < reqs.len() && is_config_of(#[trigger] reqs[j], o)
}

proof fn lemma_output_requests_pass_checks(st: RandrState, s: Seq<Output>, scales: Seq<Scale>)
    ensures
        forall|j: int|
            0 <= j < st.spec_output_requests(s, scales).0.len() ==> config_passes_checks(
                st,
                #[trigger] st.spec_output_requests(s, scales).0[j],
            ),
    decreases s.len(),
{
    if s.len() > 0 {
        lemma_output_requests_pass_checks(st, s.drop_last(), scales);
        let (p, ok) = st.spec_output_requests(s.drop_last(), scales);
        let o = s.last();
        if ok && o.spec_enabled() {
            let q = st.spec_output_step(o, scales[s.len() - 1]).0;
            assert forall|j: int| 0 <= j < (p + q).len() implies config_passes_checks(st, #[trigger] (p + q)[j]) by {
                if j >= p.len() {
                    assert((p + q)[j] == q[j - p.len()]);
                } else {
                    assert((p + q)[j] == p[j]);
                }
            }
        }
    }
}

/// Every configuration that a plan to apply a layout sends passes the checks a CRTC
/// configuration must pass.
pub proof fn lemma_apply_configs_pass_checks(
    st: RandrState,
    s: Seq<Output>,
    scales: Seq<Scale>,
    screen: ScreenSize,
    i: int,
)
    requires
        0 <= i < st.spec_apply_plan(s, scales, screen).0.len(),
    ensures
        config_passes_checks(st, st.spec_apply_plan(s, scales, screen).0[i]),
{
    lemma_output_requests_pass_checks(st, s, scales);
    let px = screen.width != st.screen_size.width || screen.height != st.screen_size.height;
    let mm = screen.mwidth != st.screen_size.mwidth || screen.mheight != st.screen_size.mheight;
    let d = disable_requests(st.spec_disable_plan(s, screen, px));
    let z = if px || mm {
        seq![RandrRequest::SetScreenSize { window: st.root, size: screen }]
    } else {
        seq![]
    };
    let (u, ok) = st.spec_output_requests(s, scales);
    let plan = st.spec_apply_plan(s, scales, screen).0;
    if i < d.len() {
        assert(plan[i] == d[i]);
    } else if i < d.len() + z.len() {
        assert(plan[i] == z[i - d.len()]);
    } else if i < d.len() + z.len() + u.len() {
        assert(plan[i] == u[i - d.len() - z.len()]);
    }
}

proof fn lemma_output_requests_configure(st: RandrState, s: Seq<Output>, scales: Seq<Scale>, k: int)
    requires
        0 <= k < s.len(),
        s[k].spec_enabled(),
        st.spec_output_requests(s, scales).1,
    ensures
        configures(st.spec_output_requests(s, scales).0, s[k]),
    decreases s.len(),
{
    let (p, ok) = st.spec_output_requests(s.drop_last(), scales);
    let o = s.last();
    if !ok {
        assert(!st.spec_output_requests(s, scales).1);
    } else if k < s.len() - 1 {
        lemma_output_requests_configure(st, s.drop_last(), scales, k);
        assert(s.drop_last()[k] == s[k]);
        let r = st.spec_output_requests(s, scales).0;
        let j = choose|j: int| 0 <= j < p.len() && is_config_of(#[trigger] p[j], s[k]);
        if o.spec_enabled() {
            let q = st.spec_output_step(o, scales[s.len() - 1]).0;
            assert(r == p + q);
            assert(r[j] == p[j]);
        } else {
            assert(r == p);
        }
    } else {
        let q = st.spec_output_step(o, scales[s.len() - 1]).0;
        let r = st.spec_output_requests(s, scales).0;
        assert(r == p + q);
        assert(q.len() == 2);
        assert(r[p.len() + 1int] == q[1]);
    }
}

/// A complete plan to apply a layout configures every enabled output: some CRTC is
/// set to the output at its position, with its mode and its rotation.
pub proof fn lemma_complete_plan_configures_enabled(
    st: RandrState,
    s: Seq<Output>,
    scales: Seq<Scale>,
    screen: ScreenSize,
    k: int,
)
    requires
        st.spec_apply_plan(s, scales, screen).1,
        0 <= k < s.len(),
        s[k].spec_enabled(),
    ensures
        configures(st.spec_apply_plan(s, scales, screen).0, s[k]),
{
    let px = screen.width != st.screen_size.width || screen.height != st.screen_size.height;
    let mm = screen.mwidth != st.screen_size.mwidth || screen.mheight != st.screen_size.mheight;
    let d = disable_requests(st.spec_disable_plan(s, screen, px));
    let z = if px || mm {
        seq![RandrRequest::SetScreenSize { window: st.root, size: screen }]
    } else {
        seq![]
    };
    let (u, ok) = st.spec_output_requests(s, scales);
    lemma_output_requests_configure(st, s, scales, k);
    let plan = st.spec_apply_plan(s, scales, screen).0;
    let j = choose|j: int| 0 <= j < u.len() && is_config_of(#[trigger] u[j], s[k]);
    assert(plan[d.len() + z.len() + j] == u[j]);
}

proof fn lemma_restore_requests_pass_checks(st: RandrState, s: Seq<SavedCrtc>)
    ensures
        forall|j: int|
            0 <= j < st.spec_restore_requests(s).len() ==> config_passes_checks(
                st,
                #[trigger] st.spec_restore_requests(s)[j],
            ),
    decreases s.len(),
{
    if s.len() > 0 {
        lemma_restore_requests_pass_checks(st, s.drop_last());
        let p = st.spec_restore_requests(s.drop_last());
        let q = st.spec_restore_step(s.last());
        let c = s.last();
        let mode = st.spec_revert_mode(&c.info);
        if st.spec_validate_crtc(c.id, mode, c.info.rotation, c.info.outputs@) is Ok && c.info.mode != 0 && mode != 0 {
            assert(c.info.outputs@ =~= seq![c.info.outputs@[0]]);
        }
        assert forall|j: int| 0 <= j < (p + q).len() implies config_passes_checks(st, #[trigger] (p + q)[j]) by {
            if j >= p.len() {
                assert((p + q)[j] == q[j - p.len()]);
            } else {
                assert((p + q)[j] == p[j]);
            }
        }
    }
}

/// Every configuration that a plan to restore a snapshot sends passes the checks a
/// CRTC configuration must pass.
pub proof fn lemma_restore_configs_pass_checks(st: RandrState, s: Seq<SavedCrtc>, i: int)
    requires
        0 <= i < st.spec_restore_requests(s).len(),
    ensures
        config_passes_checks(st, st.spec_restore_requests(s)[i]),
{
    lemma_restore_requests_pass_checks(st, s);
}


proof fn lemma_output_requests_kinds(st: RandrState, s: Seq<Output>, scales: Seq<Scale>)
    ensures
        forall|j: int|
            0 <= j < st.spec_output_requests(s, scales).0.len() ==> {
                let r = #[trigger] st.spec_output_requests(s, scales).0[j];
                r is SetCrtcTransform || r is SetCrtcConfig
            },
    decreases s.len(),
{
    if s.len() > 0 {
        lemma_output_requests_kinds(st, s.drop_last(), scales);
        let (p, ok) = st.spec_output_requests(s.drop_last(), scales);
        let o = s.last();
        if ok && o.spec_enabled() {
            let q = st.spec_output_step(o, scales[s.len() - 1]).0;
            assert forall|j: int| 0 <= j < (p + q).len() implies {
                let r = #[trigger] (p + q)[j];
                r is SetCrtcTransform || r is SetCrtcConfig
            } by {
                if j >= p.len() {
                    assert((p + q)[j] == q[j - p.len()]);
                } else {
                    assert((p + q)[j] == p[j]);
                }
            }
        }
    }
}

/// Applying a layout sets the screen size exactly when it changes: when the new size
/// differs from the current one in pixels or in millimeters, the plan sets the root
/// window's screen to the new size; when it differs in neither, the plan sets no
/// screen size at all.
pub proof fn lemma_apply_sets_screen_size(
    st: RandrState,
    s: Seq<Output>,
    scales: Seq<Scale>,
    screen: ScreenSize,
)
    ensures
        screen.width != st.screen_size.width || screen.height != st.screen_size.height
            || screen.mwidth != st.screen_size.mwidth || screen.mheight != st.screen_size.mheight
            ==> st.spec_apply_plan(s, scales, screen).0.contains(
            RandrRequest::SetScreenSize { window: st.root, size: screen },
        ),
        screen == st.screen_size ==> forall|j: int|
            0 <= j < st.spec_apply_plan(s, scales, screen).0.len() ==> !(
            #[trigger] st.spec_apply_plan(s, scales, screen).0[j] is SetScreenSize),
{
    lemma_output_requests_kinds(st, s, scales);
    let px = screen.width != st.screen_size.width || screen.height != st.screen_size.height;
    let mm = screen.mwidth != st.screen_size.mwidth || screen.mheight != st.screen_size.mheight;
    let d = disable_requests(st.spec_disable_plan(s, screen, px));
    let z = if px || mm {
        seq![RandrRequest::SetScreenSize { window: st.root, size: screen }]
    } else {
        seq![]
    };
    let (u, ok) = st.spec_output_requests(s, scales);
    let plan = st.spec_apply_plan(s, scales, screen).0;
    if px || mm {
        assert(plan[d.len() as int] == z[0]);
    }
    if screen == st.screen_size {
        assert(!px && !mm);
        assert forall|j: int| 0 <= j < plan.len() implies !(#[trigger] plan[j] is SetScreenSize) by {
            if j < d.len() {
                assert(plan[j] == d[j]);
            } else if j < d.len() + u.len() {
                assert(plan[j] == u[j - d.len()]);
            }
        }
    }
}

/// Restoring a snapshot configures only saved CRTCs, each as it was saved: its
/// position, its rotation, its first output and the mode it is restored with; and
/// it sets only saved transforms.
pub proof fn lemma_restore_uses_saved(st: RandrState, s: Seq<SavedCrtc>, j: int)
    requires
        0 <= j < st.spec_restore_requests(s).len(),
    ensures
        match st.spec_restore_requests(s)[j] {
            RandrRequest::SetCrtcConfig { crtc, x, y, mode, rotation, output } => exists|k: int|
                0 <= k < s.len() && (#[trigger] s[k]).id == crtc && x == s[k].info.x && y
                    == s[k].info.y && rotation == s[k].info.rotation && output
                    == s[k].info.outputs@[0] && mode == st.spec_revert_mode(&s[k].info),
            RandrRequest::SetCrtcTransform { crtc, scale } => exists|k: int|
                0 <= k < s.len() && (#[trigger] s[k]).id == crtc && scale == s[k].transform,
            _ => false,
        },
    decreases s.len(),
{
    let d = s.drop_last();
    let p = st.spec_restore_requests(d);
    let q = st.spec_restore_step(s.last());
    let r = st.spec_restore_requests(s);
    assert(r == p + q);
    if j < p.len() {
        assert(r[j] == p[j]);
        lemma_restore_uses_saved(st, d, j);
        match p[j] {
            RandrRequest::SetCrtcConfig { .. } => {
                let k = choose|k: int| 0 <= k < d.len() && #[trigger] d[k].id == d[k].id && {
                    let c = d[k];
                    p[j] == RandrRequest::SetCrtcConfig {
                        crtc: c.id,
                        x: c.info.x,
                        y: c.info.y,
                        mode: st.spec_revert_mode(&c.info),
                        rotation: c.info.rotation,
                        output: c.info.outputs@[0],
                    }
                };
                assert(s[k] == d[k]);
            },
            RandrRequest::SetCrtcTransform { .. } => {
                let k = choose|k: int| 0 <= k < d.len() && #[trigger] d[k].id == d[k].id && {
                    let c = d[k];
                    p[j] == RandrRequest::SetCrtcTransform { crtc: c.id, scale: c.transform }
                };
                assert(s[k] == d[k]);
            },
            _ => {},
        }
    } else {
        assert(r[j] == q[j - p.len()]);
        assert(s[s.len() - 1] == s.last());
    }
}
} // verus!
