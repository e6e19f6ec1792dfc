use vstd::prelude::*;

use crate::enums::{rotation_mask, spec_rotation_mask, Reflection, Rotation};
use crate::math::Rect;
use crate::mode::Mode;
use crate::modes::{is_first_id, Modes};

verus! {

/// Width and height an output shows with the given mode and rotation: sideways
/// rotations swap them, no mode gives no size.
pub open spec fn spec_dims(mode: Option<Mode>, rotation: Rotation) -> (u16, u16) {
    match mode {
        Some(m) => if rotation.swaps_axes() {
            (m.spec_height(), m.spec_width())
        } else {
            (m.spec_width(), m.spec_height())
        },
        None => (0, 0),
    }
}

/// The mode is the first mode with its id in the list.
pub open spec fn mode_in(modes: Seq<Mode>, mode: Mode) -> bool {
    exists|i: int| is_first_id(modes, mode.spec_id(), i) && modes[i] == mode
}

/// A monitor connector of the X server with its configuration.
pub struct Output {
    id: u32,
    name: String,
    product_name: Option<String>,
    enabled: bool,
    primary: bool,
    pos_x: i16,
    pos_y: i16,
    modes: Modes,
    mode: Option<Mode>,
    rotation: Rotation,
    reflection: Reflection,
    width: u16,
    height: u16,
    mm_width: u32,
    mm_height: u32,
}

impl Output {
    pub closed spec fn spec_id(&self) -> u32 {
        self.id
    }

    pub closed spec fn spec_name(&self) -> Seq<char> {
        self.name@
    }

    pub closed spec fn spec_product_name(&self) -> Option<Seq<char>> {
        match self.product_name {
            Some(p) => Some(p@),
            None => None,
        }
    }

    pub closed spec fn spec_enabled(&self) -> bool {
        self.enabled
    }

    pub closed spec fn spec_primary(&self) -> bool {
        self.primary
    }

    pub closed spec fn spec_x(&self) -> i16 {
        self.pos_x
    }

    pub closed spec fn spec_y(&self) -> i16 {
        self.pos_y
    }

    pub closed spec fn spec_modes(&self) -> Seq<Mode> {
        self.modes@
    }

    pub closed spec fn spec_mode(&self) -> Option<Mode> {
        self.mode
    }

    pub closed spec fn spec_rotation(&self) -> Rotation {
        self.rotation
    }

    pub closed spec fn spec_reflection(&self) -> Reflection {
        self.reflection
    }

    pub closed spec fn spec_width(&self) -> u16 {
        self.width
    }

    pub closed spec fn spec_height(&self) -> u16 {
        self.height
    }

    pub closed spec fn spec_mm_width(&self) -> u32 {
        self.mm_width
    }

    pub closed spec fn spec_mm_height(&self) -> u32 {
        self.mm_height
    }

    /// Everything but the mode, size and rotation is unchanged from `o`.
    pub open spec fn same_but_mode(&self, o: &Output) -> bool {
        &&& self.spec_id() == o.spec_id()
        &&& self.spec_name() == o.spec_name()
        &&& self.spec_product_name() == o.spec_product_name()
        &&& self.spec_enabled() == o.spec_enabled()
        &&& self.spec_primary() == o.spec_primary()
        &&& self.spec_x() == o.spec_x()
        &&& self.spec_y() == o.spec_y()
        &&& self.spec_modes() == o.spec_modes()
        &&& self.spec_reflection() == o.spec_reflection()
        &&& self.spec_mm_width() == o.spec_mm_width()
        &&& self.spec_mm_height() == o.spec_mm_height()
    }

    /// The output is unchanged from `o` but for the listed parts.
    pub open spec fn same_but(&self, o: &Output, enabled: bool, primary: bool, pos: bool, reflection: bool) -> bool {
        &&& self.spec_id() == o.spec_id()
        &&& self.spec_name() == o.spec_name()
        &&& self.spec_product_name() == o.spec_product_name()
        &&& !enabled ==> self.spec_enabled() == o.spec_enabled()
        &&& !primary ==> self.spec_primary() == o.spec_primary()
        &&& !pos ==> self.spec_x() == o.spec_x() && self.spec_y() == o.spec_y()
        &&& self.spec_modes() == o.spec_modes()
        &&& self.spec_mode() == o.spec_mode()
        &&& self.spec_rotation() == o.spec_rotation()
        &&& !reflection ==> self.spec_reflection() == o.spec_reflection()
        &&& self.spec_width() == o.spec_width()
        &&& self.spec_height() == o.spec_height()
        &&& self.spec_mm_width() == o.spec_mm_width()
        &&& self.spec_mm_height() == o.spec_mm_height()
    }

    /// The output is `o` enabled with its first mode at (`x`, `y`); the rest of its
    /// configuration is kept.
    pub open spec fn enabled_from(&self, o: Output, x: i16, y: i16) -> bool {
        &&& self.spec_enabled()
        &&& self.spec_mode() == Some(o.spec_modes()[0])
        &&& (self.spec_width(), self.spec_height()) == spec_dims(Some(o.spec_modes()[0]), o.spec_rotation())
        &&& self.spec_x() == x
        &&& self.spec_y() == y
        &&& self.spec_primary() == o.spec_primary()
        &&& self.spec_rotation() == o.spec_rotation()
        &&& self.spec_reflection() == o.spec_reflection()
        &&& self.spec_modes() == o.spec_modes()
        &&& self.spec_id() == o.spec_id()
        &&& self.spec_name() == o.spec_name()
        &&& self.spec_product_name() == o.spec_product_name()
        &&& self.spec_mm_width() == o.spec_mm_width()
        &&& self.spec_mm_height() == o.spec_mm_height()
    }

    /// The output is `o` disabled, with its configuration reset: not primary, at the
    /// origin, without mode or size, with normal rotation and reflection.
    pub open spec fn disabled_from(&self, o: Output) -> bool {
        &&& !self.spec_enabled()
        &&& !self.spec_primary()
        &&& self.spec_x() == 0
        &&& self.spec_y() == 0
        &&& self.spec_mode() is None
        &&& self.spec_width() == 0
        &&& self.spec_height() == 0
        &&& self.spec_rotation() == Rotation::Normal
        &&& self.spec_reflection() == Reflection::Normal
        &&& self.spec_modes() == o.spec_modes()
        &&& self.spec_id() == o.spec_id()
        &&& self.spec_name() == o.spec_name()
        &&& self.spec_product_name() == o.spec_product_name()
        &&& self.spec_mm_width() == o.spec_mm_width()
        &&& self.spec_mm_height() == o.spec_mm_height()
    }

    /// A new output. Once the mode is set, its size follows the mode and the
    /// rotation, so `dim` does not survive construction: the output has the size of
    /// its mode, or no size without one.
    pub fn new(
        id: u32,
        name: String,
        product_name: Option<String>,
        enabled: bool,
        primary: bool,
        pos: [i16; 2],
        mode: Option<Mode>,
        modes: Modes,
        rotation: Rotation,
        reflection: Reflection,
        dim: [u16; 2],
        mm_dim: [u32; 2],
    ) -> (o: Output)
        requires
            mode matches Some(m) ==> mode_in(modes@, m),
        ensures
            o.spec_id() == id,
            o.spec_name() == name@,
            o.spec_product_name() == (match product_name {
                Some(p) => Some(p@),
                None => None::<Seq<char>>,
            }),
            o.spec_enabled() == enabled,
            o.spec_primary() == primary,
            o.spec_x() == pos[0],
            o.spec_y() == pos[1],
            o.spec_modes() == modes@,
            o.spec_mode() == mode,
            o.spec_rotation() == rotation,
            o.spec_reflection() == reflection,
            (o.spec_width(), o.spec_height()) == spec_dims(mode, rotation),
            o.spec_mm_width() == mm_dim[0],
            o.spec_mm_height() == mm_dim[1],
    {
        let mut o = Output {
            id,
            name,
            product_name,
            enabled,
            primary,
            pos_x: pos[0],
            pos_y: pos[1],
            modes,
            mode: None,
            rotation: Rotation::Normal,
            reflection,
            width: dim[0],
            height: dim[1],
            mm_width: mm_dim[0],
            mm_height: mm_dim[1],
        };
        o.set_mode(mode);
        o.set_rotation(rotation);
        o
    }

    pub fn id(&self) -> (r: u32)
        ensures
            r == self.spec_id(),
    {
        self.id
    }

    pub fn name(&self) -> (r: &String)
        ensures
            r@ == self.spec_name(),
    {
        &self.name
    }

    pub fn product_name(&self) -> (r: Option<&String>)
        ensures
            match r {
                Some(p) => self.spec_product_name() == Some(p@),
                None => self.spec_product_name() is None,
            },
    {
        match &self.product_name {
            Some(p) => Some(p),
            None => None,
        }
    }

    pub fn enabled(&self) -> (r: bool)
        ensures
            r == self.spec_enabled(),
    {
        self.enabled
    }

    pub fn primary(&self) -> (r: bool)
        ensures
            r == self.spec_primary(),
    {
        self.primary
    }

    pub fn modes(&self) -> (r: &Modes)
        ensures
            r@ == self.spec_modes(),
    {
        &self.modes
    }

    pub fn mode(&self) -> (r: Option<Mode>)
        ensures
            r == self.spec_mode(),
    {
        self.mode
    }

    pub fn rotation(&self) -> (r: Rotation)
        ensures
            r == self.spec_rotation(),
    {
        self.rotation
    }

    pub fn reflection(&self) -> (r: Reflection)
        ensures
            r == self.spec_reflection(),
    {
        self.reflection
    }

    pub fn mm_width(&self) -> (r: u32)
        ensures
            r == self.spec_mm_width(),
    {
        self.mm_width
    }

    pub fn mm_height(&self) -> (r: u32)
        ensures
            r == self.spec_mm_height(),
    {
        self.mm_height
    }

    pub fn x(&self) -> (r: i16)
        ensures
            r == self.spec_x(),
    {
        self.pos_x
    }

    pub fn y(&self) -> (r: i16)
        ensures
            r == self.spec_y(),
    {
        self.pos_y
    }

    pub fn width(&self) -> (r: u16)
        ensures
            r == self.spec_width(),
    {
        self.width
    }

    pub fn height(&self) -> (r: u16)
        ensures
            r == self.spec_height(),
    {
        self.height
    }

    pub fn set_x(&mut self, x: i16)
        ensures
            final(self).spec_x() == x,
            final(self).same_but(old(self), false, false, true, false),
            final(self).spec_y() == old(self).spec_y(),
    {
        self.pos_x = x;
    }

    pub fn set_y(&mut self, y: i16)
        ensures
            final(self).spec_y() == y,
            final(self).same_but(old(self), false, false, true, false),
            final(self).spec_x() == old(self).spec_x(),
    {
        self.pos_y = y;
    }

    pub fn set_enabled(&mut self, enabled: bool)
        ensures
            final(self).spec_enabled() == enabled,
            final(self).same_but(old(self), true, false, false, false),
    {
        self.enabled = enabled;
    }

    pub fn set_primary(&mut self, primary: bool)
        ensures
            final(self).spec_primary() == primary,
            final(self).same_but(old(self), false, true, false, false),
    {
        self.primary = primary;
    }

    pub fn set_reflection(&mut self, reflection: Reflection)
        ensures
            final(self).spec_reflection() == reflection,
            final(self).same_but(old(self), false, false, false, true),
    {
        self.reflection = reflection;
    }

    /// Sets the mode, which must be one of the output's modes; the size follows the
    /// mode and the rotation, and no mode leaves no size.
    pub fn set_mode(&mut self, mode: Option<Mode>)
        requires
            mode matches Some(m) ==> mode_in(old(self).spec_modes(), m),
        ensures
            final(self).spec_mode() == mode,
            (final(self).spec_width(), final(self).spec_height()) == spec_dims(
                mode,
                old(self).spec_rotation(),
            ),
            final(self).spec_rotation() == old(self).spec_rotation(),
            final(self).same_but_mode(old(self)),
    {
        self.mode = None;
        self.width = 0;
        self.height = 0;
        if let Some(mode) = mode {
            self.mode = Some(mode);
            match self.rotation {
                Rotation::Normal | Rotation::Inverted => {
                    self.width = mode.width();
                    self.height = mode.height();
                },
                Rotation::Left | Rotation::Right => {
                    self.width = mode.height();
                    self.height = mode.width();
                },
            }
        }
    }

    /// Sets the rotation; with a mode the size follows it.
    pub fn set_rotation(&mut self, rotation: Rotation)
        ensures
            final(self).spec_rotation() == rotation,
            final(self).spec_mode() == old(self).spec_mode(),
            old(self).spec_mode() is Some ==> (final(self).spec_width(), final(self).spec_height())
                == spec_dims(old(self).spec_mode(), rotation),
            old(self).spec_mode() is None ==> final(self).spec_width() == old(self).spec_width()
                && final(self).spec_height() == old(self).spec_height(),
            final(self).same_but_mode(old(self)),
    {
        self.rotation = rotation;
        if let Some(mode) = self.mode {
            match rotation {
                Rotation::Normal | Rotation::Inverted => {
                    self.width = mode.width();
                    self.height = mode.height();
                },
                Rotation::Left | Rotation::Right => {
                    self.width = mode.height();
                    self.height = mode.width();
                },
            }
        }
    }

    /// Enables the output at the default position.
    pub fn enable(&mut self)
        requires
            old(self).spec_modes().len() > 0,
        ensures
            final(self).enabled_from(*old(self), -1i16, -1i16),
    {
        self.enable_at(-1, -1);
    }

    /// Enables the output with its first mode at the given position.
    pub fn enable_at(&mut self, x: i16, y: i16)
        requires
            old(self).spec_modes().len() > 0,
        ensures
            final(self).enabled_from(*old(self), x, y),
    {
        self.enabled = true;
        let first = self.modes.get(0);
        assert(is_first_id(self.modes@, first.spec_id(), 0));
        self.set_mode(Some(first));
        self.pos_x = x;
        self.pos_y = y;
    }

    /// Disables the output and resets its configuration.
    pub fn disable(&mut self)
        ensures
            final(self).disabled_from(*old(self)),
    {
        self.enabled = false;
        self.primary = false;
        self.pos_x = 0;
        self.pos_y = 0;
        self.set_mode(None);
        self.set_rotation(Rotation::Normal);
        self.reflection = Reflection::Normal;
    }

    /// The area of the output on the screen.
    pub fn rect(&self) -> (r: Rect)
        requires
            self.spec_x() + self.spec_width() <= 0xFFFF,
            self.spec_y() + self.spec_height() <= 0xFFFF,
        ensures
            r == Rect::from_parts(self.spec_x(), self.spec_y(), self.spec_width(), self.spec_height()),
            r.left() == self.spec_x(),
            r.top() == self.spec_y(),
            r.w() == self.spec_width(),
            r.h() == self.spec_height(),
    {
        Rect::new(self.pos_x, self.pos_y, self.width, self.height)
    }

    /// The RandR rotation mask of the output's rotation and reflection.
    pub fn randr_rotation(&self) -> (r: u16)
        ensures
            r == spec_rotation_mask(self.spec_rotation(), self.spec_reflection()),
    {
        rotation_mask(self.rotation, self.reflection)
    }
}

/// Disabling an output leaves no trace of its configuration: enabling it afterwards
/// gives the first mode at the given position, with normal rotation and reflection.
pub proof fn lemma_disable_then_enable(o: Output, d: Output, e: Output, x: i16, y: i16)
    requires
        o.spec_modes().len() > 0,
        d.disabled_from(o),
        e.enabled_from(d, x, y),
    ensures
        e.spec_enabled(),
        e.spec_mode() == Some(o.spec_modes()[0]),
        e.spec_width() == o.spec_modes()[0].spec_width(),
        e.spec_height() == o.spec_modes()[0].spec_height(),
        e.spec_x() == x,
        e.spec_y() == y,
        !e.spec_primary(),
        e.spec_rotation() == Rotation::Normal,
        e.spec_reflection() == Reflection::Normal,
        e.spec_modes() == o.spec_modes(),
        e.spec_id() == o.spec_id(),
{
}

/// Rotating sideways swaps width and height, and rotating back restores them.
pub proof fn lemma_rotation_dims(mode: Mode, r1: Rotation, r2: Rotation)
    ensures
        r1.swaps_axes() != r2.swaps_axes() ==> spec_dims(Some(mode), r1).0 == spec_dims(Some(mode), r2).1
            && spec_dims(Some(mode), r1).1 == spec_dims(Some(mode), r2).0,
        r1.swaps_axes() == r2.swaps_axes() ==> spec_dims(Some(mode), r1) == spec_dims(Some(mode), r2),
{
}

} // verus!
