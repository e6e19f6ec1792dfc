use vstd::prelude::*;
use std::collections::HashMap;

use crate::text::{from_utf8_lossy, spec_trim_end, trim_end, utf8_lossy};
use crate::math::{bounds_fit, max_int, min_int, seq_max_bottom, seq_max_right, seq_min_left, seq_min_top, spec_bounds, Rect};
use crate::output::{spec_dims, Output};
use crate::outputs::Outputs;
use crate::modes::{is_first_id, Modes};
use vstd::std_specs::hash::{builds_valid_hashers, obeys_key_model};
use vstd::std_specs::iter::IteratorSpec;
use crate::enums::{Reflection, REFLECT_X, REFLECT_Y, Rotation, contains, mask_contains, mask_intersects, intersects, ROTATE0, ROTATE90, ROTATE180, ROTATE270};

verus! {

broadcast use vstd::std_specs::hash::group_hash_axioms;

/// Size of the X screen in pixels and millimeters.
#[derive(Clone, Copy, Debug, PartialEq, Eq, Structural)]
pub struct ScreenSize {
    pub width: u16,
    pub height: u16,
    pub mwidth: u16,
    pub mheight: u16,
}

/// Smallest and largest screen size the X server supports.
#[derive(Clone, Copy, Debug, PartialEq, Eq, Structural)]
pub struct ScreenSizeRange {
    pub min_width: u16,
    pub min_height: u16,
    pub max_width: u16,
    pub max_height: u16,
}

/// What the X server reports of a CRTC.
#[derive(Debug)]
pub struct CrtcInfo {
    pub x: i16,
    pub y: i16,
    pub width: u16,
    pub height: u16,
    pub mode: u32,
    pub rotation: u16,
    pub rotations: u16,
    pub outputs: Vec<u32>,
    pub possible: Vec<u32>,
}

/// What the X server reports of an output.
#[derive(Debug)]
pub struct OutputInfo {
    pub crtc: u32,
    pub mm_width: u32,
    pub mm_height: u32,
    pub connected: bool,
    pub crtcs: Vec<u32>,
    pub modes: Vec<u32>,
    pub name: Vec<u8>,
}

/// The diagonal scale entries of a CRTC transform, in 16.16 fixed point.
#[derive(Clone, Copy, Debug, PartialEq, Eq, Structural)]
pub struct Scale {
    pub matrix11: i32,
    pub matrix22: i32,
}

/// Why a CRTC configuration is refused before it is sent to the X server.
#[derive(Clone, Copy, Debug, PartialEq, Eq, Structural)]
pub enum CrtcConfigError {
    /// More than one output for one CRTC.
    MultipleOutputs,
    /// A mode without an output or an output without a mode.
    ModeOutputMismatch,
    /// More than one rotation bit.
    InvalidRotation,
    /// The CRTC is not known.
    UnknownCrtc,
    /// The mode is not known.
    UnknownMode,
    /// The output is not known.
    UnknownOutput,
    /// The output cannot be driven by the CRTC.
    CannotAttach,
    /// The CRTC does not support the rotation.
    RotationNotSupported,
    /// The output does not support the mode.
    ModeNotSupported,
}

/// The low four bits of the mask hold exactly one rotation.
pub open spec fn single_rotation(rotation: u16) -> bool {
    let r = rotation & 0xf;
    r == ROTATE0 || r == ROTATE90 || r == ROTATE180 || r == ROTATE270
}

/// Whether the list holds the value.
pub fn vec_contains(v: &Vec<u32>, x: u32) -> (r: bool)
    ensures
        r == v@.contains(x),
{
    let mut i: usize = 0;
    while i < v.len()
        invariant
            0 <= i <= v@.len(),
            forall|j: int| 0 <= j < i ==> v@[j] != x,
        decreases v@.len() - i,
    {
        if v[i] == x {
            assert(v@[i as int] == x);
            return true;
        }
        i += 1;
    }
    false
}

/// The state of the X server's screen resources as RandR reports it.
pub struct RandrState {
    pub root: u32,
    pub screen_size: ScreenSize,
    pub screen_size_range: ScreenSizeRange,
    pub primary: u32,
    pub crtcs: HashMap<u32, CrtcInfo>,
    pub outputs: HashMap<u32, OutputInfo>,
    pub modes: HashMap<u32, crate::mode::Mode>,
    pub transforms: HashMap<u32, Scale>,
    /// The EDID of each output, where it has one.
    pub edids: HashMap<u32, Option<Vec<u8>>>,
}

impl RandrState {
    /// The root window, the supported screen sizes, the primary output, the CRTC
    /// transforms and the EDIDs are those of `old`.
    pub open spec fn same_settings(&self, old: &RandrState) -> bool {
        &&& self.root == old.root
        &&& self.screen_size_range == old.screen_size_range
        &&& self.primary == old.primary
        &&& self.transforms@ == old.transforms@
        &&& self.edids@ == old.edids@
    }

    /// The checks a CRTC configuration passes before it is sent, in order.
    pub open spec fn spec_validate_crtc(
        &self,
        crtc: u32,
        mode: u32,
        rotation: u16,
        outputs: Seq<u32>,
    ) -> Result<(), CrtcConfigError> {
        if outputs.len() > 1 {
            Err(CrtcConfigError::MultipleOutputs)
        } else if (mode == 0 && outputs.len() != 0) || (mode > 0 && outputs.len() == 0) {
            Err(CrtcConfigError::ModeOutputMismatch)
        } else if !single_rotation(rotation) {
            Err(CrtcConfigError::InvalidRotation)
        } else if !self.crtcs@.contains_key(crtc) {
            Err(CrtcConfigError::UnknownCrtc)
        } else if mode > 0 && !self.modes@.contains_key(mode) {
            Err(CrtcConfigError::UnknownMode)
        } else if outputs.len() != 0 && mode > 0 {
            let ci = self.crtcs@[crtc];
            if !self.outputs@.contains_key(outputs[0]) {
                Err(CrtcConfigError::UnknownOutput)
            } else {
                let oi = self.outputs@[outputs[0]];
                if !ci.possible@.contains(outputs[0]) || !oi.crtcs@.contains(crtc) {
                    Err(CrtcConfigError::CannotAttach)
                } else if !mask_contains(ci.rotations, rotation) {
                    Err(CrtcConfigError::RotationNotSupported)
                } else if !oi.modes@.contains(mode) {
                    Err(CrtcConfigError::ModeNotSupported)
                } else {
                    Ok(())
                }
            }
        } else {
            Ok(())
        }
    }

    /// Checks a CRTC configuration before it is sent to the X server: at most one
    /// output, a mode exactly when there is an output, one rotation, a known CRTC
    /// and mode, and an output that the CRTC can drive with that rotation and mode.
    pub fn validate_crtc_config(&self, crtc: u32, mode: u32, rotation: u16, outputs: &[u32]) -> (r:
        Result<(), CrtcConfigError>)
        ensures
            r == self.spec_validate_crtc(crtc, mode, rotation, outputs@),
    {
        if outputs.len() > 1 {
            return Err(CrtcConfigError::MultipleOutputs);
        }
        if mode == 0 && outputs.len() != 0 || mode > 0 && outputs.len() == 0 {
            return Err(CrtcConfigError::ModeOutputMismatch);
        }
        let r = rotation & 0xf;
        if !(r == ROTATE0 || r == ROTATE90 || r == ROTATE180 || r == ROTATE270) {
            return Err(CrtcConfigError::InvalidRotation);
        }
        let crtc_info = match self.crtcs.get(&crtc) {
            Some(ci) => ci,
            None => return Err(CrtcConfigError::UnknownCrtc),
        };
        if mode > 0 && !self.modes.contains_key(&mode) {
            return Err(CrtcConfigError::UnknownMode);
        }
        if outputs.len() != 0 && mode > 0 {
            match self.outputs.get(&outputs[0]) {
                Some(output_info) => {
                    if !vec_contains(&crtc_info.possible, outputs[0]) || !vec_contains(
                        &output_info.crtcs,
                        crtc,
                    ) {
                        return Err(CrtcConfigError::CannotAttach);
                    }
                    if !contains(crtc_info.rotations, rotation) {
                        return Err(CrtcConfigError::RotationNotSupported);
                    }
                    if !vec_contains(&output_info.modes, mode) {
                        return Err(CrtcConfigError::ModeNotSupported);
                    }
                },
                None => return Err(CrtcConfigError::UnknownOutput),
            }
        }
        Ok(())
    }

    /// The CRTC is free, can drive the output and supports the rotation.
    pub open spec fn crtc_fits(&self, crtc: u32, output: u32, rotation: u16) -> bool {
        &&& self.crtcs@.contains_key(crtc)
        &&& self.crtcs@[crtc].outputs@.len() == 0
        &&& self.crtcs@[crtc].possible@.contains(output)
        &&& mask_contains(self.crtcs@[crtc].rotations, rotation)
    }

    /// The first CRTC of the output's CRTC list that is free, can drive the output and
    /// supports the rotation.
    pub open spec fn spec_valid_empty_crtc(&self, output: u32, rotation: u16) -> Option<u32> {
        if !self.outputs@.contains_key(output) {
            None
        } else {
            let cs = self.outputs@[output].crtcs@;
            if exists|i: int| 0 <= i < cs.len() && self.crtc_fits(#[trigger] cs[i], output, rotation) {
                let i = choose|i: int|
                    0 <= i < cs.len() && self.crtc_fits(#[trigger] cs[i], output, rotation) && forall|j: int|
                        0 <= j < i ==> !self.crtc_fits(#[trigger] cs[j], output, rotation);
                Some(cs[i])
            } else {
                None
            }
        }
    }

    pub fn valid_empty_crtc(&self, output: u32, rotation: u16) -> (r: Option<u32>)
        ensures
            r == self.spec_valid_empty_crtc(output, rotation),
    {
        let output_info = match self.outputs.get(&output) {
            Some(oi) => oi,
            None => return None,
        };
        let ghost cs = output_info.crtcs@;
        let mut i: usize = 0;
        while i < output_info.crtcs.len()
            invariant
                0 <= i <= cs.len(),
                cs == output_info.crtcs@,
                self.outputs@.contains_key(output),
                self.outputs@[output] == *output_info,
                forall|j: int| 0 <= j < i ==> !self.crtc_fits(#[trigger] cs[j], output, rotation),
            decreases cs.len() - i,
        {
            let crtc_id = output_info.crtcs[i];
            if let Some(crtc_info) = self.crtcs.get(&crtc_id) {
                if crtc_info.outputs.len() == 0 && vec_contains(&crtc_info.possible, output)
                    && contains(crtc_info.rotations, rotation) {
                    proof {
                        assert(self.crtc_fits(cs[i as int], output, rotation));
                        let k = choose|k: int|
                            0 <= k < cs.len() && self.crtc_fits(#[trigger] cs[k], output, rotation)
                                && forall|j: int|
                                0 <= j < k ==> !self.crtc_fits(#[trigger] cs[j], output, rotation);
                        if k < i {
                        } else if k > i {
                            assert(!self.crtc_fits(cs[i as int], output, rotation));
                        }
                    }
                    return Some(crtc_id);
                }
            }
            i += 1;
        }
        None
    }

    /// The CRTC an enabled output is configured on: its current CRTC, unless it has
    /// none or shares it with other outputs without being listed first; then the first
    /// fitting free CRTC, if any.
    pub open spec fn spec_target_crtc(&self, output: u32, rotation: u16) -> Option<u32> {
        let crtc = self.outputs@[output].crtc;
        if crtc == 0 || (self.crtcs@.contains_key(crtc) && self.crtcs@[crtc].outputs@.len() > 1
            && self.crtcs@[crtc].outputs@[0] != output) {
            self.spec_valid_empty_crtc(output, rotation)
        } else {
            Some(crtc)
        }
    }

    pub fn target_crtc(&self, output: u32, rotation: u16) -> (r: Option<u32>)
        requires
            self.outputs@.contains_key(output),
        ensures
            r == self.spec_target_crtc(output, rotation),
    {
        let crtc_id = match self.outputs.get(&output) {
            Some(oi) => oi.crtc,
            None => return None,
        };
        let shared = match self.crtcs.get(&crtc_id) {
            Some(ci) => ci.outputs.len() > 1 && ci.outputs[0] != output,
            None => false,
        };
        if crtc_id == 0 || shared {
            self.valid_empty_crtc(output, rotation)
        } else {
            Some(crtc_id)
        }
    }

    /// The mode a CRTC is restored with: its own mode while the server still knows it,
    /// else the first mode of its first output, else none.
    pub open spec fn spec_revert_mode(&self, crtc: &CrtcInfo) -> u32 {
        if self.modes@.contains_key(crtc.mode) {
            crtc.mode
        } else if crtc.outputs@.len() > 0 && self.outputs@.contains_key(crtc.outputs@[0])
            && self.outputs@[crtc.outputs@[0]].modes@.len() > 0 {
            self.outputs@[crtc.outputs@[0]].modes@[0]
        } else {
            0
        }
    }

    pub fn revert_mode(&self, crtc: &CrtcInfo) -> (r: u32)
        ensures
            r == self.spec_revert_mode(crtc),
    {
        if self.modes.contains_key(&crtc.mode) {
            return crtc.mode;
        }
        if crtc.outputs.len() > 0 {
            if let Some(output_info) = self.outputs.get(&crtc.outputs[0]) {
                if output_info.modes.len() > 0 {
                    return output_info.modes[0];
                }
            }
        }
        0
    }

    /// Records a screen change of the root window; the size is stored as the rotation
    /// shows it. Events of other windows are ignored.
    pub fn screen_change(
        &mut self,
        rotation: u16,
        root: u32,
        window: u32,
        width: u16,
        height: u16,
        mwidth: u16,
        mheight: u16,
    ) -> (accepted: bool)
        ensures
            accepted == (root == window && root == old(self).root),
            accepted ==> final(self).screen_size == (if mask_intersects(
                rotation,
                ROTATE90 | ROTATE270,
            ) {
                ScreenSize { width: height, height: width, mwidth: mheight, mheight: mwidth }
            } else {
                ScreenSize { width, height, mwidth, mheight }
            }),
            !accepted ==> final(self).screen_size == old(self).screen_size,
            final(self).root == old(self).root,
            final(self).same_settings(old(self)),
            final(self).outputs@ == old(self).outputs@,
            final(self).crtcs@ == old(self).crtcs@,
            final(self).modes@ == old(self).modes@,
    {
        if root != window || root != self.root {
            return false;
        }
        self.screen_size = if intersects(rotation, ROTATE90 | ROTATE270) {
            ScreenSize { width: height, height: width, mwidth: mheight, mheight: mwidth }
        } else {
            ScreenSize { width, height, mwidth, mheight }
        };
        true
    }
}

/// Whether a CRTC transform scales: a diagonal entry whose integral part is not one,
/// that is, which lies outside `[1, 2)` in 16.16 fixed point.
pub fn has_scale(scale: Scale) -> (r: bool)
    ensures
        r == !(65536 <= scale.matrix11 < 131072 && 65536 <= scale.matrix22 < 131072),
{
    !(65536 <= scale.matrix11 && scale.matrix11 < 131072 && 65536 <= scale.matrix22
        && scale.matrix22 < 131072)
}

/// The areas of the enabled outputs, in order.
pub open spec fn enabled_rects(s: Seq<Output>) -> Seq<Rect>
    decreases s.len(),
{
    if s.len() == 0 {
        seq![]
    } else {
        let p = enabled_rects(s.drop_last());
        let o = s.last();
        if o.spec_enabled() {
            p.push(Rect::from_parts(o.spec_x(), o.spec_y(), o.spec_width(), o.spec_height()))
        } else {
            p
        }
    }
}

/// Every enabled output's right and bottom side fit in 16 bits, and so does the area
/// covering them all.
pub open spec fn layout_fits(s: Seq<Output>) -> bool {
    &&& forall|i: int|
        0 <= i < s.len() && (#[trigger] s[i]).spec_enabled() ==> s[i].spec_x() + s[i].spec_width()
            <= 0xFFFF && s[i].spec_y() + s[i].spec_height() <= 0xFFFF
    &&& bounds_fit(enabled_rects(s))
}

proof fn lemma_extremes_push(p: Seq<Rect>, r: Rect)
    ensures
        seq_min_left(p.push(r)) == (if p.len() == 0 {
            r.left()
        } else {
            min_int(seq_min_left(p), r.left())
        }),
        seq_min_top(p.push(r)) == (if p.len() == 0 {
            r.top()
        } else {
            min_int(seq_min_top(p), r.top())
        }),
        seq_max_right(p.push(r)) == (if p.len() == 0 {
            r.right_edge()
        } else {
            max_int(seq_max_right(p), r.right_edge())
        }),
        seq_max_bottom(p.push(r)) == (if p.len() == 0 {
            r.bottom_edge()
        } else {
            max_int(seq_max_bottom(p), r.bottom_edge())
        }),
{
    assert(p.push(r).drop_last() =~= p);
}

/// Whether a layout fits a 16-bit screen: every enabled output's right and bottom
/// side, and the area covering all enabled outputs.
pub fn layout_fits_check(outputs: &Outputs) -> (r: bool)
    ensures
        r == layout_fits(outputs@),
{
    let ghost s = outputs@;
    let mut any = false;
    let mut min_l: i32 = 0;
    let mut min_t: i32 = 0;
    let mut max_r: i32 = 0;
    let mut max_b: i32 = 0;
    let mut each_fits = true;
    let mut i: usize = 0;
    while i < outputs.len()
        invariant
            0 <= i <= s.len(),
            s == outputs@,
            any == (enabled_rects(s.take(i as int)).len() > 0),
            any ==> min_l == seq_min_left(enabled_rects(s.take(i as int))),
            any ==> min_t == seq_min_top(enabled_rects(s.take(i as int))),
            any ==> max_r == seq_max_right(enabled_rects(s.take(i as int))),
            any ==> max_b == seq_max_bottom(enabled_rects(s.take(i as int))),
            i16::MIN <= min_l <= i16::MAX,
            i16::MIN <= min_t <= i16::MAX,
            i16::MIN <= max_r <= i16::MAX + u16::MAX,
            i16::MIN <= max_b <= i16::MAX + u16::MAX,
            each_fits == (forall|k: int|
                0 <= k < i && (#[trigger] s[k]).spec_enabled() ==> s[k].spec_x() + s[k].spec_width()
                    <= 0xFFFF && s[k].spec_y() + s[k].spec_height() <= 0xFFFF),
        decreases s.len() - i,
    {
        let o = outputs.index(i);
        proof {
            assert(s.take(i + 1).drop_last() =~= s.take(i as int));
            assert(s.take(i + 1).last() == s[i as int]);
        }
        if o.enabled() {
            let l = o.x() as i32;
            let t = o.y() as i32;
            let r = l + o.width() as i32;
            let b = t + o.height() as i32;
            proof {
                Rect::lemma_from_parts(o.spec_x(), o.spec_y(), o.spec_width(), o.spec_height());
                lemma_extremes_push(
                    enabled_rects(s.take(i as int)),
                    Rect::from_parts(o.spec_x(), o.spec_y(), o.spec_width(), o.spec_height()),
                );
            }
            if r > 0xFFFF || b > 0xFFFF {
                each_fits = false;
            }
            if any {
                if l < min_l {
                    min_l = l;
                }
                if t < min_t {
                    min_t = t;
                }
                if r > max_r {
                    max_r = r;
                }
                if b > max_b {
                    max_b = b;
                }
            } else {
                min_l = l;
                min_t = t;
                max_r = r;
                max_b = b;
            }
            any = true;
        }
        i += 1;
    }
    assert(s.take(s.len() as int) =~= s);
    if !any {
        return each_fits;
    }
    each_fits && max_r - min_l <= 0xFFFF && max_b - min_t <= 0xFFFF && max_r <= 0xFFFF && max_b <= 0xFFFF
}

/// Clamps a size into the supported range: raised to the minimum after being cut to
/// the maximum.
pub open spec fn clamp_dim(min: u16, max: u16, v: u16) -> u16 {
    let c = if max <= v {
        max
    } else {
        v
    };
    if min >= c {
        min
    } else {
        c
    }
}

/// Millimeter size of the screen when exactly one output is enabled: the size of the
/// first listed output, turned with its rotation; zero when there is another number
/// of enabled outputs or the size does not fit in 16 bits.
pub open spec fn spec_single_mm(s: Seq<Output>) -> (u16, u16) {
    if enabled_rects(s).len() == 1 && s.len() > 0 && s[0].spec_mm_width() <= u16::MAX
        && s[0].spec_mm_height() <= u16::MAX {
        let w = s[0].spec_mm_width() as u16;
        let h = s[0].spec_mm_height() as u16;
        if s[0].spec_rotation().swaps_axes() {
            (h, w)
        } else {
            (w, h)
        }
    } else {
        (0, 0)
    }
}

proof fn lemma_enabled_rects_len(s: Seq<Output>)
    ensures
        enabled_rects(s).len() <= s.len(),
    decreases s.len(),
{
    if s.len() > 0 {
        lemma_enabled_rects_len(s.drop_last());
    }
}

impl RandrState {
    /// The CRTC of an output must be switched off before the new layout is set: the
    /// output is disabled, its CRTC scales, or the screen size changes and the CRTC
    /// does not fit the new size.
    pub open spec fn crtc_needs_disable(
        &self,
        o: Output,
        crtc: u32,
        screen: ScreenSize,
        px_changed: bool,
    ) -> bool {
        let ci = self.crtcs@[crtc];
        let sc = self.transforms@[crtc];
        ||| !o.spec_enabled()
        ||| !(65536 <= sc.matrix11 < 131072 && 65536 <= sc.matrix22 < 131072)
        ||| (px_changed && (ci.x + ci.width > screen.width || ci.y + ci.height > screen.height))
    }

    /// The CRTCs to switch off before the new layout is set, in the order of the
    /// outputs; outputs without a CRTC are skipped.
    pub open spec fn spec_disable_plan(
        &self,
        s: Seq<Output>,
        screen: ScreenSize,
        px_changed: bool,
    ) -> Seq<u32>
        decreases s.len(),
    {
        if s.len() == 0 {
            seq![]
        } else {
            let p = self.spec_disable_plan(s.drop_last(), screen, px_changed);
            let o = s.last();
            let crtc = self.outputs@[o.spec_id()].crtc;
            if crtc != 0 && self.crtc_needs_disable(o, crtc, screen, px_changed) {
                p.push(crtc)
            } else {
                p
            }
        }
    }

    /// Every output is known to the server, and so are the CRTC and the transform of
    /// every output that has a CRTC.
    pub open spec fn outputs_known(&self, s: Seq<Output>) -> bool {
        forall|i: int|
            0 <= i < s.len() ==> self.outputs@.contains_key((#[trigger] s[i]).spec_id()) && (
            self.outputs@[s[i].spec_id()].crtc != 0 ==> self.crtcs@.contains_key(
                self.outputs@[s[i].spec_id()].crtc,
            ) && self.transforms@.contains_key(self.outputs@[s[i].spec_id()].crtc))
    }

    /// The CRTCs to switch off before the new layout is set.
    pub fn disable_plan(&self, outputs: &Outputs, screen: &ScreenSize, px_changed: bool) -> (r: Vec<
        u32,
    >)
        requires
            self.outputs_known(outputs@),
        ensures
            r@ == self.spec_disable_plan(outputs@, *screen, px_changed),
    {
        let mut plan: Vec<u32> = Vec::new();
        let mut i: usize = 0;
        while i < outputs.len()
            invariant
                0 <= i <= outputs@.len(),
                self.outputs_known(outputs@),
                plan@ == self.spec_disable_plan(outputs@.take(i as int), *screen, px_changed),
            decreases outputs@.len() - i,
        {
            let output = outputs.index(i);
            let ghost s = outputs@;
            proof {
                assert(s.take(i + 1).drop_last() =~= s.take(i as int));
                assert(s.take(i + 1).last() == s[i as int]);
            }
            let crtc_id = match self.outputs.get(&output.id()) {
                Some(oi) => oi.crtc,
                None => 0,
            };
            if crtc_id != 0 {
                let (cx, cy, cw, ch) = match self.crtcs.get(&crtc_id) {
                    Some(ci) => (ci.x, ci.y, ci.width, ci.height),
                    None => (0, 0, 0, 0),
                };
                let scaled = match self.transforms.get(&crtc_id) {
                    Some(sc) => has_scale(*sc),
                    None => false,
                };
                if !output.enabled() || scaled || (px_changed && (cx as i32 + cw as i32
                    > screen.width as i32 || cy as i32 + ch as i32 > screen.height as i32)) {
                    plan.push(crtc_id);
                }
            }
            i += 1;
        }
        assert(outputs@.take(outputs@.len() as int) =~= outputs@);
        plan
    }

    /// The screen size a layout needs: the bounds of the enabled outputs clamped into
    /// the supported range, and the millimeter size of a single enabled output. Zero
    /// millimeters mean that the size must be derived from the pixel density.
    pub fn screen_size_for(&self, outputs: &Outputs) -> (r: ScreenSize)
        requires
            layout_fits(outputs@),
        ensures
            r.width == clamp_dim(
                self.screen_size_range.min_width,
                self.screen_size_range.max_width,
                spec_bounds(enabled_rects(outputs@)).w() as u16,
            ),
            r.height == clamp_dim(
                self.screen_size_range.min_height,
                self.screen_size_range.max_height,
                spec_bounds(enabled_rects(outputs@)).h() as u16,
            ),
            (r.mwidth, r.mheight) == spec_single_mm(outputs@),
    {
        let mut rects: Vec<Rect> = Vec::new();
        let mut i: usize = 0;
        while i < outputs.len()
            invariant
                0 <= i <= outputs@.len(),
                layout_fits(outputs@),
                rects@ == enabled_rects(outputs@.take(i as int)),
            decreases outputs@.len() - i,
        {
            let output = outputs.index(i);
            let ghost s = outputs@;
            proof {
                assert(s.take(i + 1).drop_last() =~= s.take(i as int));
                assert(s.take(i + 1).last() == s[i as int]);
            }
            if output.enabled() {
                let r = output.rect();
                rects.push(r);
            }
            i += 1;
        }
        assert(outputs@.take(outputs@.len() as int) =~= outputs@);
        let n_enabled = rects.len();
        let bounds = Rect::bounds(rects);
        proof {
            bounds.lemma_ranges();
        }
        let range = self.screen_size_range;
        let bw = bounds.width();
        let bh = bounds.height();
        let cw = if range.max_width <= bw {
            range.max_width
        } else {
            bw
        };
        let width = if range.min_width >= cw {
            range.min_width
        } else {
            cw
        };
        let ch = if range.max_height <= bh {
            range.max_height
        } else {
            bh
        };
        let height = if range.min_height >= ch {
            range.min_height
        } else {
            ch
        };
        let mut mm: (u16, u16) = (0, 0);
        if n_enabled == 1 {
            proof {
                lemma_enabled_rects_len(outputs@);
            }
            let o = outputs.index(0);
            if o.mm_width() <= u16::MAX as u32 && o.mm_height() <= u16::MAX as u32 {
                let w = o.mm_width() as u16;
                let h = o.mm_height() as u16;
                mm = match o.rotation() {
                    Rotation::Left | Rotation::Right => (h, w),
                    _ => (w, h),
                };
            }
        }
        ScreenSize { width, height, mwidth: mm.0, mheight: mm.1 }
    }
}

/// The list without any occurrence of the value.
pub open spec fn without(s: Seq<u32>, x: u32) -> Seq<u32>
    decreases s.len(),
{
    if s.len() == 0 {
        seq![]
    } else {
        let p = without(s.drop_last(), x);
        if s.last() == x {
            p
        } else {
            p.push(s.last())
        }
    }
}

/// Removes every occurrence of the value, keeping the order of the others.
pub fn retain_without(v: &mut Vec<u32>, x: u32)
    ensures
        final(v)@ == without(old(v)@, x),
{
    let mut kept: Vec<u32> = Vec::new();
    let mut i: usize = 0;
    while i < v.len()
        invariant
            0 <= i <= v@.len(),
            v@ == old(v)@,
            kept@ == without(v@.take(i as int), x),
        decreases v@.len() - i,
    {
        let ghost s = v@;
        proof {
            assert(s.take(i + 1).drop_last() =~= s.take(i as int));
        }
        if v[i] != x {
            kept.push(v[i]);
        }
        i += 1;
    }
    assert(v@.take(v@.len() as int) =~= v@);
    *v = kept;
}

impl RandrState {
    /// `self` is `old` after the known output `output` moved to `crtc` in the CRTC
    /// lists: it left the list of its old CRTC and joined the list of the new one
    /// unless it was listed there already. No other output changed.
    pub open spec fn moved_output(&self, old: &RandrState, output: u32, crtc: u32) -> bool {
        let prev = old.outputs@[output].crtc;
        &&& self.outputs@.dom() == old.outputs@.dom()
        &&& self.crtcs@.dom() == old.crtcs@.dom()
        &&& forall|c: u32|
            #![trigger self.crtcs@[c]]
            self.crtcs@.contains_key(c) ==> self.crtcs@[c].outputs@ == (if c != crtc && c == prev && c > 0 {
                without(old.crtcs@[c].outputs@, output)
            } else if c == crtc && c != prev && c > 0 && !old.crtcs@[c].outputs@.contains(output) {
                old.crtcs@[c].outputs@.push(output)
            } else {
                old.crtcs@[c].outputs@
            })
        &&& forall|o: u32|
            #![trigger self.outputs@[o]]
            o != output && self.outputs@.contains_key(o) ==> self.outputs@[o] == old.outputs@[o]
        &&& self.modes@ == old.modes@
        &&& self.root == old.root
    }

    /// Moves an output to another CRTC in the CRTC lists: it leaves the list of its old
    /// CRTC and joins the list of the new one, unless it is listed there already.
    /// Unknown outputs are ignored.
    pub fn reassign_output_crtc(&mut self, output: u32, crtc: u32) -> (known: bool)
        ensures
            known == old(self).outputs@.contains_key(output),
            known ==> final(self).moved_output(old(self), output, crtc),
            known ==> final(self).outputs@[output] == (OutputInfo { crtc, ..old(self).outputs@[output] }),
            !known ==> final(self).outputs@ == old(self).outputs@,
            !known ==> final(self).crtcs@ == old(self).crtcs@,
            final(self).modes@ == old(self).modes@,
            final(self).root == old(self).root,
            final(self).same_settings(old(self)),
            final(self).screen_size == old(self).screen_size,
    {
        let mut output_info = match self.outputs.remove(&output) {
            Some(oi) => oi,
            None => return false,
        };
        let old_crtc = output_info.crtc;
        if crtc != old_crtc {
            if old_crtc > 0 {
                if let Some(mut crtc_info) = self.crtcs.remove(&old_crtc) {
                    retain_without(&mut crtc_info.outputs, output);
                    self.crtcs.insert(old_crtc, crtc_info);
                }
            }
            if crtc > 0 {
                if let Some(mut crtc_info) = self.crtcs.remove(&crtc) {
                    if !vec_contains(&crtc_info.outputs, output) {
                        crtc_info.outputs.push(output);
                    }
                    self.crtcs.insert(crtc, crtc_info);
                }
            }
            output_info.crtc = crtc;
        }
        self.outputs.insert(output, output_info);
        assert(self.outputs@.dom() =~= old(self).outputs@.dom());
        assert(self.crtcs@.dom() =~= old(self).crtcs@.dom());
        true
    }
}

proof fn lemma_push_contains(p: Seq<u32>, v: u32, y: u32)
    ensures
        p.push(v).contains(y) <==> (p.contains(y) || v == y),
{
    if p.push(v).contains(y) {
        let i = choose|i: int| 0 <= i < p.push(v).len() && p.push(v)[i] == y;
        if i < p.len() {
            assert(p[i] == y);
        }
    }
    if p.contains(y) {
        let i = choose|i: int| 0 <= i < p.len() && p[i] == y;
        assert(p.push(v)[i] == y);
    }
    if v == y {
        assert(p.push(v)[p.len() as int] == y);
    }
}

/// Removing a value leaves none of it and keeps every other value.
pub proof fn lemma_without(s: Seq<u32>, x: u32, y: u32)
    ensures
        !without(s, x).contains(x),
        y != x ==> (without(s, x).contains(y) <==> s.contains(y)),
    decreases s.len(),
{
    if s.len() > 0 {
        let d = s.drop_last();
        let l = s.last();
        lemma_without(d, x, y);
        lemma_without(d, x, x);
        assert(s =~= d.push(l));
        lemma_push_contains(d, l, y);
        let p = without(d, x);
        if l != x {
            lemma_push_contains(p, l, x);
            lemma_push_contains(p, l, y);
        }
    }
}

/// After an output moves to another CRTC, it is listed under the new CRTC and no
/// longer under its old one; the other outputs listed under either stay listed.
pub proof fn lemma_moved_output_lists(new: RandrState, old: RandrState, output: u32, crtc: u32, other: u32)
    requires
        new.moved_output(&old, output, crtc),
        old.outputs@.contains_key(output),
        old.crtcs@.contains_key(crtc),
        old.crtcs@.contains_key(old.outputs@[output].crtc),
        crtc > 0,
        old.outputs@[output].crtc > 0,
        crtc != old.outputs@[output].crtc,
        other != output,
    ensures
        new.crtcs@[crtc].outputs@.contains(output),
        !new.crtcs@[old.outputs@[output].crtc].outputs@.contains(output),
        new.crtcs@[crtc].outputs@.contains(other) <==> old.crtcs@[crtc].outputs@.contains(other),
        new.crtcs@[old.outputs@[output].crtc].outputs@.contains(other) <==> old.crtcs@[old.outputs@[output].crtc].outputs@.contains(other),
{
    let prev = old.outputs@[output].crtc;
    lemma_without(old.crtcs@[prev].outputs@, output, other);
    let l = old.crtcs@[crtc].outputs@;
    lemma_push_contains(l, output, output);
    lemma_push_contains(l, output, other);
}

/// How an output change notification was taken in.
#[derive(Clone, Copy, Debug, PartialEq, Eq, Structural)]
pub enum OutputChangeOutcome {
    /// The event is for another window or an unknown output, and was ignored.
    Ignored,
    /// The output's CRTC and connection were recorded. The modes and the primary
    /// output must be read again, and the output's own mode list too when
    /// `output_modes` is set.
    Updated { output_modes: bool },
}

impl RandrState {
    /// Takes in an output change of the root window: a known output moves to its new
    /// CRTC in the CRTC lists and its connection state is recorded.
    pub fn output_change(&mut self, window: u32, output: u32, crtc: u32, mode: u32, connected: bool) -> (r:
        OutputChangeOutcome)
        ensures
            r == (if window != old(self).root || !old(self).outputs@.contains_key(output) {
                OutputChangeOutcome::Ignored
            } else {
                OutputChangeOutcome::Updated { output_modes: mode > 0 }
            }),
            r is Updated ==> final(self).moved_output(old(self), output, crtc),
            r is Updated ==> final(self).outputs@[output] == (OutputInfo {
                crtc,
                connected,
                ..old(self).outputs@[output]
            }),
            r is Ignored ==> final(self).outputs@ == old(self).outputs@ && final(self).crtcs@ == old(
                self,
            ).crtcs@,
            final(self).modes@ == old(self).modes@,
            final(self).root == old(self).root,
            final(self).same_settings(old(self)),
            final(self).screen_size == old(self).screen_size,
    {
        if self.root != window {
            return OutputChangeOutcome::Ignored;
        }
        if !self.reassign_output_crtc(output, crtc) {
            return OutputChangeOutcome::Ignored;
        }
        let mut output_info = match self.outputs.remove(&output) {
            Some(oi) => oi,
            None => {
                assert(false);
                return OutputChangeOutcome::Ignored;
            },
        };
        output_info.connected = connected;
        self.outputs.insert(output, output_info);
        assert(self.outputs@.dom() =~= old(self).outputs@.dom());
        OutputChangeOutcome::Updated { output_modes: mode > 0 }
    }

    /// Replaces the mode list of a known output with the one the server now reports.
    pub fn set_output_modes(&mut self, output: u32, modes: Vec<u32>) -> (known: bool)
        ensures
            known == old(self).outputs@.contains_key(output),
            known ==> final(self).outputs@ == old(self).outputs@.insert(
                output,
                OutputInfo { modes, ..old(self).outputs@[output] },
            ),
            !known ==> final(self).outputs@ == old(self).outputs@,
            final(self).crtcs@ == old(self).crtcs@,
            final(self).modes@ == old(self).modes@,
            final(self).root == old(self).root,
            final(self).same_settings(old(self)),
            final(self).screen_size == old(self).screen_size,
    {
        let mut output_info = match self.outputs.remove(&output) {
            Some(oi) => oi,
            None => return false,
        };
        output_info.modes = modes;
        self.outputs.insert(output, output_info);
        assert(self.outputs@ =~= old(self).outputs@.insert(output, self.outputs@[output]));
        true
    }
}

/// How a CRTC change notification was taken in.
#[derive(Clone, Copy, Debug, PartialEq, Eq, Structural)]
pub enum CrtcChangeOutcome {
    /// The event is for another window and was ignored.
    UnknownWindow,
    /// The CRTC is new; its full information must be requested.
    NewCrtc,
    /// Mode, rotation and position of the known CRTC were recorded; its size must be
    /// computed from its transform.
    Updated,
}

impl RandrState {
    /// Takes in a CRTC change of the root window: a known CRTC gets the new mode,
    /// rotation and position.
    pub fn crtc_change(&mut self, window: u32, crtc: u32, mode: u32, rotation: u16, x: i16, y: i16) -> (r:
        CrtcChangeOutcome)
        ensures
            r == (if window != old(self).root {
                CrtcChangeOutcome::UnknownWindow
            } else if !old(self).crtcs@.contains_key(crtc) {
                CrtcChangeOutcome::NewCrtc
            } else {
                CrtcChangeOutcome::Updated
            }),
            r == CrtcChangeOutcome::Updated ==> {
                &&& final(self).crtcs@.dom() == old(self).crtcs@.dom()
                &&& final(self).crtcs@[crtc].mode == mode
                &&& final(self).crtcs@[crtc].rotation == rotation
                &&& final(self).crtcs@[crtc].x == x
                &&& final(self).crtcs@[crtc].y == y
                &&& final(self).crtcs@[crtc].width == old(self).crtcs@[crtc].width
                &&& final(self).crtcs@[crtc].height == old(self).crtcs@[crtc].height
                &&& final(self).crtcs@[crtc].outputs@ == old(self).crtcs@[crtc].outputs@
                &&& forall|c: u32| #![trigger final(self).crtcs@[c]] c != crtc && final(self).crtcs@.contains_key(c)
                    ==> final(self).crtcs@[c] == old(self).crtcs@[c]
            },
            r != CrtcChangeOutcome::Updated ==> final(self).crtcs@ == old(self).crtcs@,
            final(self).outputs@ == old(self).outputs@,
            final(self).modes@ == old(self).modes@,
            final(self).root == old(self).root,
            final(self).same_settings(old(self)),
            final(self).screen_size == old(self).screen_size,
    {
        if self.root != window {
            return CrtcChangeOutcome::UnknownWindow;
        }
        let mut crtc_info = match self.crtcs.remove(&crtc) {
            Some(ci) => ci,
            None => return CrtcChangeOutcome::NewCrtc,
        };
        crtc_info.mode = mode;
        crtc_info.rotation = rotation;
        crtc_info.x = x;
        crtc_info.y = y;
        self.crtcs.insert(crtc, crtc_info);
        assert(self.crtcs@.dom() =~= old(self).crtcs@.dom());
        CrtcChangeOutcome::Updated
    }

    /// Every mode of the output is known to the server.
    pub open spec fn modes_known(&self, oi: OutputInfo) -> bool {
        forall|i: int| 0 <= i < oi.modes@.len() ==> self.modes@.contains_key(#[trigger] oi.modes@[i])
    }

    /// The output can be modeled: its modes are known and fit a mode list, and its CRTC
    /// is known.
    pub open spec fn output_modelable(&self, id: u32) -> bool {
        let oi = self.outputs@[id];
        oi.connected ==> {
            &&& self.modes_known(oi)
            &&& oi.modes@.len() < u32::MAX
            &&& oi.crtc > 0 ==> self.crtcs@.contains_key(oi.crtc)
        }
    }

    /// `o` is the output `id` as the server reports it, with the given product name:
    /// its name, modes, size in millimeters and primary flag; with a CRTC its position,
    /// rotation, reflection and the first of its modes with the CRTC's mode id; without
    /// a CRTC no position, no mode and no rotation or reflection.
    pub open spec fn models(&self, id: u32, product_name: Option<Seq<char>>, o: Output) -> bool {
        let oi = self.outputs@[id];
        let ci = self.crtcs@[oi.crtc];
        &&& o.spec_id() == id
        &&& o.spec_name() == utf8_lossy(oi.name@)
        &&& o.spec_product_name() == product_name
        &&& o.spec_enabled() == (oi.crtc > 0)
        &&& o.spec_primary() == (id == self.primary)
        &&& o.spec_modes() == oi.modes@.map_values(|m: u32| self.modes@[m])
        &&& o.spec_mm_width() == oi.mm_width
        &&& o.spec_mm_height() == oi.mm_height
        &&& (o.spec_width(), o.spec_height()) == spec_dims(o.spec_mode(), o.spec_rotation())
        &&& oi.crtc > 0 ==> {
            &&& o.spec_x() == ci.x
            &&& o.spec_y() == ci.y
            &&& o.spec_rotation() == Rotation::spec_from_randr(ci.rotation)
            &&& o.spec_reflection() == Reflection::spec_from_randr(ci.rotation)
            &&& match o.spec_mode() {
                Some(m) => exists|i: int| is_first_id(o.spec_modes(), ci.mode, i) && o.spec_modes()[i] == m,
                None => forall|i: int| 0 <= i < o.spec_modes().len() ==> (#[trigger] o.spec_modes()[i]).spec_id() != ci.mode,
            }
        }
        &&& oi.crtc == 0 ==> {
            &&& o.spec_x() == 0
            &&& o.spec_y() == 0
            &&& o.spec_mode() is None
            &&& o.spec_rotation() == Rotation::Normal
            &&& o.spec_reflection() == Reflection::Normal
        }
    }

    /// The configuration of a connected output as the server reports it; `None` for a
    /// disconnected output.
    pub fn model_output(&self, id: u32, product_name: Option<String>) -> (r: Option<Output>)
        requires
            self.outputs@.contains_key(id),
            self.output_modelable(id),
        ensures
            r is Some <==> self.outputs@[id].connected,
            r matches Some(o) ==> self.models(id, opt_view(product_name), o),
    {
        let output_info = match self.outputs.get(&id) {
            Some(oi) => oi,
            None => return None,
        };
        if !output_info.connected {
            return None;
        }
        let enabled = output_info.crtc > 0;
        let mut modes = Modes::new();
        let mut k: usize = 0;
        while k < output_info.modes.len()
            invariant
                0 <= k <= output_info.modes@.len(),
                output_info.modes@.len() < u32::MAX,
                self.modes_known(*output_info),
                modes@ == output_info.modes@.take(k as int).map_values(|m: u32| self.modes@[m]),
            decreases output_info.modes@.len() - k,
        {
            let mode_id = output_info.modes[k];
            let mode = match self.modes.get(&mode_id) {
                Some(m) => *m,
                None => crate::mode::Mode::new(0, 0, 0),
            };
            proof {
                assert(self.modes@.contains_key(output_info.modes@[k as int]));
            }
            modes.append(&mode);
            proof {
                assert(output_info.modes@.take(k + 1).map_values(|m: u32| self.modes@[m]) =~= output_info.modes@.take(
                    k as int,
                ).map_values(|m: u32| self.modes@[m]).push(mode));
            }
            k += 1;
        }
        assert(output_info.modes@.take(output_info.modes@.len() as int) =~= output_info.modes@);
        let mut rotation: u16 = ROTATE0;
        let mut pos: [i16; 2] = [0, 0];
        let mut dim: [u16; 2] = [0, 0];
        let mut mode = None;
        if enabled {
            if let Some(crtc_info) = self.crtcs.get(&output_info.crtc) {
                mode = modes.find_by_id(crtc_info.mode);
                rotation = crtc_info.rotation;
                pos = [crtc_info.x, crtc_info.y];
                dim = [crtc_info.width, crtc_info.height];
            }
        }
        proof {
            assert(ROTATE0 & ROTATE90 != ROTATE90) by (bit_vector);
            assert(ROTATE0 & ROTATE270 != ROTATE270) by (bit_vector);
            assert(ROTATE0 & ROTATE180 != ROTATE180) by (bit_vector);
            assert(ROTATE0 & 48 != 48) by (bit_vector);
            assert(ROTATE0 & REFLECT_X != REFLECT_X) by (bit_vector);
            assert(ROTATE0 & REFLECT_Y != REFLECT_Y) by (bit_vector);
            assert(REFLECT_X | REFLECT_Y == 48) by (bit_vector);
        }
        let name = from_utf8_lossy(output_info.name.as_slice());
        Some(
            Output::new(
                id,
                name,
                product_name,
                enabled,
                id == self.primary,
                pos,
                mode,
                modes,
                Rotation::from_randr(rotation),
                Reflection::from_randr(rotation),
                dim,
                [output_info.mm_width, output_info.mm_height],
            ),
        )
    }
}

/// The view of an optional text.
pub open spec fn opt_view(s: Option<String>) -> Option<Seq<char>> {
    match s {
        Some(t) => Some(t@),
        None => None,
    }
}

/// Offset of the display descriptor that holds the monitor name in an EDID block of
/// version 1.3 or 1.4: the first of the descriptors at 0x48, 0x5A and 0x6C tagged
/// as display product name (0xFC).
pub open spec fn spec_name_descriptor(edid: Seq<u8>) -> Option<int> {
    if edid.len() >= 128 && edid[0x12] == 1 && (edid[0x13] == 3 || edid[0x13] == 4) {
        if is_name_descriptor(edid, 0x48) {
            Some(0x48)
        } else if is_name_descriptor(edid, 0x5A) {
            Some(0x5A)
        } else if is_name_descriptor(edid, 0x6C) {
            Some(0x6C)
        } else {
            None
        }
    } else {
        None
    }
}

/// The 18-byte descriptor at `i` is a display descriptor tagged as product name.
pub open spec fn is_name_descriptor(edid: Seq<u8>, i: int) -> bool {
    edid[i] == 0 && edid[i + 1] == 0 && edid[i + 2] == 0 && edid[i + 3] == 0xFC && edid[i + 4] == 0
}

/// The monitor name stored in an EDID block, with trailing whitespace removed.
pub open spec fn spec_monitor_name(edid: Seq<u8>) -> Option<Seq<char>> {
    match spec_name_descriptor(edid) {
        Some(i) => Some(spec_trim_end(utf8_lossy(edid.subrange(i + 5, i + 18)))),
        None => None,
    }
}

/// The monitor name stored in an EDID block, with trailing whitespace removed.
pub fn get_monitor_name(edid: &[u8]) -> (r: Option<String>)
    ensures
        opt_view(r) == spec_monitor_name(edid@),
{
    if edid.len() >= 128 {
        let version = edid[0x12];
        let revision = edid[0x13];
        if version == 1 && (revision == 3 || revision == 4) {
            let mut i: usize = 0x48;
            while i <= 0x6C
                invariant
                    edid@.len() >= 128,
                    i == 0x48 || i == 0x5A || i == 0x6C || i == 0x7E,
                    edid@[0x12] == 1 && (edid@[0x13] == 3 || edid@[0x13] == 4),
                    i > 0x48 ==> !is_name_descriptor(edid@, 0x48),
                    i > 0x5A ==> !is_name_descriptor(edid@, 0x5A),
                    i > 0x6C ==> !is_name_descriptor(edid@, 0x6C),
                decreases 0x6C + 18 - i,
            {
                if edid[i] == 0 && edid[i + 1] == 0 && edid[i + 2] == 0 && edid[i + 3] == 0xFC
                    && edid[i + 4] == 0 {
                    let bytes = &edid[(i + 5)..(i + 18)];
                    let lossy = from_utf8_lossy(bytes);
                    return Some(trim_end(lossy.as_str()));
                }
                i += 18;
            }
        }
    }
    None
}

impl RandrState {
    /// The monitor name in the EDID of an output; none without an EDID.
    pub open spec fn product_name_of(&self, id: u32) -> Option<Seq<char>> {
        if self.edids@.contains_key(id) {
            match self.edids@[id] {
                Some(e) => spec_monitor_name(e@),
                None => None,
            }
        } else {
            None
        }
    }

    /// The ids of the connected outputs among the given ones, in order.
    pub open spec fn connected_ids(&self, ks: Seq<u32>) -> Seq<u32>
        decreases ks.len(),
    {
        if ks.len() == 0 {
            seq![]
        } else {
            let p = self.connected_ids(ks.drop_last());
            if self.outputs@.contains_key(ks.last()) && self.outputs@[ks.last()].connected {
                p.push(ks.last())
            } else {
                p
            }
        }
    }

    /// Every output the server knows can be modeled.
    pub open spec fn all_modelable(&self) -> bool {
        forall|id: u32| #[trigger] self.outputs@.contains_key(id) ==> self.output_modelable(id)
    }

    /// The connected outputs as the server reports them, in the order in which the map
    /// of outputs is walked, each with the monitor name found in its EDID.
    pub fn output_model(&self) -> (r: Outputs)
        requires
            self.all_modelable(),
        ensures
            exists|ks: Seq<u32>|
                #![trigger self.connected_ids(ks)]
                {
                    let c = self.connected_ids(ks);
                    &&& ks.no_duplicates()
                    &&& ks.to_set() == self.outputs@.dom()
                    &&& r@.len() == c.len()
                    &&& forall|j: int|
                        0 <= j < c.len() ==> self.models(c[j], self.product_name_of(c[j]), #[trigger] r@[j])
                },
    {
        let mut outputs = Outputs::new();
        let keys = self.outputs.keys();
        assert(obeys_key_model::<u32>() && builds_valid_hashers::<std::hash::RandomState>());
        let ghost ks = keys.remaining().unref();
        assert(ks.to_set() == self.outputs@.dom());
        for k in it: keys
            invariant
                ks == it.seq().unref(),
                ks.to_set() == self.outputs@.dom(),
                self.all_modelable(),
                outputs@.len() == self.connected_ids(ks.take(it.index())).len(),
                forall|j: int|
                    0 <= j < outputs@.len() ==> self.models(
                        self.connected_ids(ks.take(it.index()))[j],
                        self.product_name_of(self.connected_ids(ks.take(it.index()))[j]),
                        #[trigger] outputs@[j],
                    ),
        {
            let id = *k;
            let ghost i = it.index();
            proof {
                assert(ks.take(i + 1).drop_last() =~= ks.take(i));
                assert(ks.take(i + 1).last() == id);
                assert(ks.to_set().contains(ks[i]));
            }
            let product_name = match self.edids.get(&id) {
                Some(entry) => match entry {
                    Some(edid) => get_monitor_name(edid.as_slice()),
                    None => None,
                },
                None => None,
            };
            assert(opt_view(product_name) == self.product_name_of(id));
            if let Some(o) = self.model_output(id, product_name) {
                outputs.append(o);
            }
        }
        assert(ks.take(ks.len() as int) =~= ks);
        outputs
    }
}

/// Among distinct ids, the connected ones are listed once each, and exactly the ids of
/// connected outputs are listed: the output model holds every connected output once.
pub proof fn lemma_connected_ids(st: RandrState, ks: Seq<u32>, id: u32)
    requires
        ks.no_duplicates(),
    ensures
        st.connected_ids(ks).no_duplicates(),
        st.connected_ids(ks).contains(id) <==> (ks.contains(id) && st.outputs@.contains_key(id)
            && st.outputs@[id].connected),
    decreases ks.len(),
{
    if ks.len() > 0 {
        let d = ks.drop_last();
        let l = ks.last();
        assert(d.no_duplicates());
        lemma_connected_ids(st, d, id);
        lemma_connected_ids(st, d, l);
        assert(ks =~= d.push(l));
        lemma_push_contains(d, l, id);
        let p = st.connected_ids(d);
        if st.outputs@.contains_key(l) && st.outputs@[l].connected {
            lemma_push_contains(p, l, id);
            assert(!d.contains(l)) by {
                if d.contains(l) {
                    let i = choose|i: int| 0 <= i < d.len() && d[i] == l;
                    assert(ks[i] == ks[ks.len() - 1]);
                }
            }
            assert(p.push(l).no_duplicates()) by {
                assert forall|i: int, j: int| 0 <= i < j < p.push(l).len() implies p.push(l)[i] != p.push(l)[j] by {
                    if j == p.len() {
                        assert(p.contains(p[i]));
                    }
                }
            }
        }
    }
}

/// Whether the X server's RandR version is at least 1.3.
pub fn version_supported(major: u32, minor: u32) -> (r: bool)
    ensures
        r == !(major < 1 || (major == 1 && minor < 3)),
{
    !(major < 1 || (major == 1 && minor < 3))
}

/// Width and height of a CRTC as the rotation shows them.
pub fn rotated_dims(rotation: u16, width: u16, height: u16) -> (r: (u16, u16))
    ensures
        r == (if mask_intersects(rotation, ROTATE90 | ROTATE270) {
            (height, width)
        } else {
            (width, height)
        }),
{
    if intersects(rotation, ROTATE90 | ROTATE270) {
        (height, width)
    } else {
        (width, height)
    }
}

} // verus!

verus! {

/// The monitor name of an EDID block of version 1.3 or 1.4 whose first descriptor, at
/// 0x48, is tagged as display product name (00 00 00 FC 00) is the text of that
/// descriptor's 13 data bytes, decoded and without trailing whitespace.
pub proof fn lemma_monitor_name_first_descriptor(edid: Seq<u8>)
    requires
        edid.len() >= 128,
        edid[0x12] == 1,
        edid[0x13] == 3 || edid[0x13] == 4,
        edid[0x48] == 0,
        edid[0x49] == 0,
        edid[0x4A] == 0,
        edid[0x4B] == 0xFC,
        edid[0x4C] == 0,
    ensures
        spec_monitor_name(edid) == Some(spec_trim_end(utf8_lossy(edid.subrange(0x4D, 0x5A)))),
{
}

/// An EDID block shorter than 128 bytes, or of another version than 1.3 or 1.4, holds
/// no monitor name.
pub proof fn lemma_monitor_name_needs_version(edid: Seq<u8>)
    requires
        edid.len() < 128 || edid[0x12] != 1 || (edid[0x13] != 3 && edid[0x13] != 4),
    ensures
        spec_monitor_name(edid) is None,
{
}

/// An EDID block of version 1.3 or 1.4 with no descriptor at 0x48, 0x5A or 0x6C
/// tagged as display product name holds no monitor name.
pub proof fn lemma_monitor_name_needs_tag(edid: Seq<u8>)
    requires
        !(edid[0x48] == 0 && edid[0x49] == 0 && edid[0x4A] == 0 && edid[0x4B] == 0xFC && edid[0x4C] == 0),
        !(edid[0x5A] == 0 && edid[0x5B] == 0 && edid[0x5C] == 0 && edid[0x5D] == 0xFC && edid[0x5E] == 0),
        !(edid[0x6C] == 0 && edid[0x6D] == 0 && edid[0x6E] == 0 && edid[0x6F] == 0xFC && edid[0x70] == 0),
    ensures
        spec_monitor_name(edid) is None,
{
}

/// An output keeps the CRTC it is on unless that CRTC is shared with other outputs and
/// lists another output first; an output that has to move gets a free CRTC from its
/// own list that can drive it with the rotation.
pub proof fn lemma_target_crtc(st: RandrState, output: u32, rotation: u16)
    requires
        st.outputs@.contains_key(output),
    ensures
        ({
            let crtc = st.outputs@[output].crtc;
            crtc != 0 && (!st.crtcs@.contains_key(crtc) || st.crtcs@[crtc].outputs@.len() <= 1
                || st.crtcs@[crtc].outputs@[0] == output) ==> st.spec_target_crtc(output, rotation)
                == Some(crtc)
        }),
        match st.spec_target_crtc(output, rotation) {
            Some(c) => c != st.outputs@[output].crtc ==> {
                &&& st.outputs@[output].crtcs@.contains(c)
                &&& st.crtcs@.contains_key(c)
                &&& st.crtcs@[c].outputs@.len() == 0
                &&& st.crtcs@[c].possible@.contains(output)
                &&& st.crtcs@[c].rotations & rotation == rotation
            },
            None => true,
        },
{
    let cs = st.outputs@[output].crtcs@;
    if exists|i: int| 0 <= i < cs.len() && st.crtc_fits(#[trigger] cs[i], output, rotation) {
        let k = choose|i: int| 0 <= i < cs.len() && st.crtc_fits(#[trigger] cs[i], output, rotation);
        lemma_first_fit(st, cs, output, rotation, k);
        let i = choose|i: int|
            0 <= i < cs.len() && st.crtc_fits(#[trigger] cs[i], output, rotation) && forall|j: int|
                0 <= j < i ==> !st.crtc_fits(#[trigger] cs[j], output, rotation);
        assert(cs.contains(cs[i]));
    }
}

proof fn lemma_first_fit(st: RandrState, cs: Seq<u32>, output: u32, rotation: u16, k: int)
    requires
        0 <= k < cs.len(),
        st.crtc_fits(cs[k], output, rotation),
    ensures
        exists|i: int|
            0 <= i < cs.len() && st.crtc_fits(#[trigger] cs[i], output, rotation) && forall|j: int|
                0 <= j < i ==> !st.crtc_fits(#[trigger] cs[j], output, rotation),
    decreases k,
{
    if exists|j: int| 0 <= j < k && st.crtc_fits(#[trigger] cs[j], output, rotation) {
        let j = choose|j: int| 0 <= j < k && st.crtc_fits(#[trigger] cs[j], output, rotation);
        lemma_first_fit(st, cs, output, rotation, j);
    } else {
        assert(0 <= k < cs.len() && st.crtc_fits(cs[k], output, rotation) && forall|j: int|
            0 <= j < k ==> !st.crtc_fits(#[trigger] cs[j], output, rotation));
    }
}

proof fn lemma_single_enabled_rects(s: Seq<Output>)
    requires
        s.len() > 0,
        s[0].spec_enabled(),
        forall|j: int| 1 <= j < s.len() ==> !(#[trigger] s[j]).spec_enabled(),
    ensures
        enabled_rects(s).len() == 1,
    decreases s.len(),
{
    if s.len() > 1 {
        let d = s.drop_last();
        assert forall|j: int| 1 <= j < d.len() implies !(#[trigger] d[j]).spec_enabled() by {
            assert(d[j] == s[j]);
        }
        assert(d[0] == s[0]);
        assert(!s[s.len() - 1].spec_enabled());
        lemma_single_enabled_rects(d);
    } else {
        assert(s.last() == s[0]);
        assert(enabled_rects(s.drop_last()).len() == 0);
    }
}

/// With exactly one enabled output, listed first, the screen takes that output's size
/// in millimeters: as it is for normal and inverted rotation, with width and height
/// swapped for left and right rotation.
pub proof fn lemma_single_output_mm(s: Seq<Output>)
    requires
        s.len() > 0,
        s[0].spec_enabled(),
        forall|j: int| 1 <= j < s.len() ==> !(#[trigger] s[j]).spec_enabled(),
        s[0].spec_mm_width() <= u16::MAX,
        s[0].spec_mm_height() <= u16::MAX,
    ensures
        s[0].spec_rotation() == Rotation::Normal || s[0].spec_rotation() == Rotation::Inverted
            ==> spec_single_mm(s) == (s[0].spec_mm_width() as u16, s[0].spec_mm_height() as u16),
        s[0].spec_rotation() == Rotation::Left || s[0].spec_rotation() == Rotation::Right
            ==> spec_single_mm(s) == (s[0].spec_mm_height() as u16, s[0].spec_mm_width() as u16),
{
    lemma_single_enabled_rects(s);
}

proof fn lemma_enabled_rects_nonempty(s: Seq<Output>, i: int)
    requires
        0 <= i < s.len(),
        s[i].spec_enabled(),
    ensures
        enabled_rects(s).len() >= 1,
    decreases s.len(),
{
    if i < s.len() - 1 {
        lemma_enabled_rects_nonempty(s.drop_last(), i);
    }
}

proof fn lemma_enabled_rects_two(s: Seq<Output>, i: int, j: int)
    requires
        0 <= i < j < s.len(),
        s[i].spec_enabled(),
        s[j].spec_enabled(),
    ensures
        enabled_rects(s).len() >= 2,
    decreases s.len(),
{
    let d = s.drop_last();
    if j < s.len() - 1 {
        lemma_enabled_rects_two(d, i, j);
    } else {
        lemma_enabled_rects_nonempty(d, i);
    }
}

/// With no enabled output, or with two or more, the screen's millimeter size is left
/// to be derived from the pixel density.
pub proof fn lemma_no_single_output_mm(s: Seq<Output>, i: int, j: int)
    requires
        (forall|k: int| 0 <= k < s.len() ==> !(#[trigger] s[k]).spec_enabled()) || (0 <= i < j
            < s.len() && s[i].spec_enabled() && s[j].spec_enabled()),
    ensures
        spec_single_mm(s) == (0u16, 0u16),
{
    if 0 <= i < j < s.len() && s[i].spec_enabled() && s[j].spec_enabled() {
        lemma_enabled_rects_two(s, i, j);
    } else {
        lemma_no_enabled_rects(s);
    }
}

proof fn lemma_no_enabled_rects(s: Seq<Output>)
    requires
        forall|k: int| 0 <= k < s.len() ==> !(#[trigger] s[k]).spec_enabled(),
    ensures
        enabled_rects(s).len() == 0,
    decreases s.len(),
{
    if s.len() > 0 {
        let d = s.drop_last();
        assert forall|k: int| 0 <= k < d.len() implies !(#[trigger] d[k]).spec_enabled() by {
            assert(d[k] == s[k]);
        }
        lemma_no_enabled_rects(d);
    }
}

} // verus!
