use vstd::prelude::*;

verus! {

/// Bit of a RandR rotation mask: no rotation.
pub const ROTATE0: u16 = 1;

/// Bit of a RandR rotation mask: rotation by 90 degrees.
pub const ROTATE90: u16 = 2;

/// Bit of a RandR rotation mask: rotation by 180 degrees.
pub const ROTATE180: u16 = 4;

/// Bit of a RandR rotation mask: rotation by 270 degrees.
pub const ROTATE270: u16 = 8;

/// Bit of a RandR rotation mask: reflection along the x axis.
pub const REFLECT_X: u16 = 16;

/// Bit of a RandR rotation mask: reflection along the y axis.
pub const REFLECT_Y: u16 = 32;

/// Every bit of `flag` is set in `mask`.
pub open spec fn mask_contains(mask: u16, flag: u16) -> bool {
    mask & flag == flag
}

/// Some bit of `flag` is set in `mask`.
pub open spec fn mask_intersects(mask: u16, flag: u16) -> bool {
    mask & flag != 0
}

/// Whether every bit of `flag` is set in `mask`.
pub fn contains(mask: u16, flag: u16) -> (r: bool)
    ensures
        r == mask_contains(mask, flag),
{
    mask & flag == flag
}

/// Whether some bit of `flag` is set in `mask`.
pub fn intersects(mask: u16, flag: u16) -> (r: bool)
    ensures
        r == mask_intersects(mask, flag),
{
    mask & flag != 0
}

/// Rotation of an output.
#[derive(Debug, Copy, Clone, PartialEq, Eq, Structural)]
pub enum Rotation {
    Normal,
    Left,
    Right,
    Inverted,
}

impl Rotation {
    /// Name of the rotation as the xrandr command line takes it.
    pub open spec fn spec_xrandr(self) -> Seq<char> {
        match self {
            Rotation::Normal => "normal"@,
            Rotation::Left => "left"@,
            Rotation::Right => "right"@,
            Rotation::Inverted => "inverted"@,
        }
    }

    pub fn xrandr(&self) -> (r: String)
        ensures
            r@ == self.spec_xrandr(),
    {
        match *self {
            Rotation::Normal => "normal".to_owned(),
            Rotation::Left => "left".to_owned(),
            Rotation::Right => "right".to_owned(),
            Rotation::Inverted => "inverted".to_owned(),
        }
    }

    /// Position of the variant in declaration order.
    pub open spec fn index(self) -> u32 {
        match self {
            Rotation::Normal => 0,
            Rotation::Left => 1,
            Rotation::Right => 2,
            Rotation::Inverted => 3,
        }
    }

    pub open spec fn spec_from_u32(value: u32) -> Rotation {
        if value == 0 {
            Rotation::Normal
        } else if value == 1 {
            Rotation::Left
        } else if value == 2 {
            Rotation::Right
        } else {
            Rotation::Inverted
        }
    }

    /// The rotation at the given position; positions start at 0.
    pub fn from_u32(value: u32) -> (r: Rotation)
        requires
            value < 4,
        ensures
            r == Rotation::spec_from_u32(value),
            r.index() == value,
    {
        match value {
            0 => Rotation::Normal,
            1 => Rotation::Left,
            2 => Rotation::Right,
            _ => Rotation::Inverted,
        }
    }

    /// Rotation read from a RandR rotation mask.
    pub open spec fn spec_from_randr(mask: u16) -> Rotation {
        if mask_contains(mask, ROTATE90) {
            Rotation::Left
        } else if mask_contains(mask, ROTATE270) {
            Rotation::Right
        } else if mask_contains(mask, ROTATE180) {
            Rotation::Inverted
        } else {
            Rotation::Normal
        }
    }

    pub fn from_randr(mask: u16) -> (r: Rotation)
        ensures
            r == Rotation::spec_from_randr(mask),
    {
        if contains(mask, ROTATE90) {
            Rotation::Left
        } else if contains(mask, ROTATE270) {
            Rotation::Right
        } else if contains(mask, ROTATE180) {
            Rotation::Inverted
        } else {
            Rotation::Normal
        }
    }

    /// RandR rotation bit of the rotation; RandR counts counterclockwise.
    pub open spec fn spec_to_randr(self) -> u16 {
        match self {
            Rotation::Normal => ROTATE0,
            Rotation::Left => ROTATE90,
            Rotation::Right => ROTATE270,
            Rotation::Inverted => ROTATE180,
        }
    }

    pub fn to_randr(self) -> (r: u16)
        ensures
            r == self.spec_to_randr(),
    {
        match self {
            Rotation::Normal => ROTATE0,
            Rotation::Left => ROTATE90,
            Rotation::Right => ROTATE270,
            Rotation::Inverted => ROTATE180,
        }
    }

    /// Whether the rotation swaps width and height.
    pub open spec fn swaps_axes(self) -> bool {
        self == Rotation::Left || self == Rotation::Right
    }
}

impl Default for Rotation {
    fn default() -> (r: Self)
        ensures
            r == Rotation::Normal,
    {
        Rotation::Normal
    }
}

impl From<Rotation> for u32 {
    fn from(value: Rotation) -> u32 {
        match value {
            Rotation::Normal => 0,
            Rotation::Left => 1,
            Rotation::Right => 2,
            Rotation::Inverted => 3,
        }
    }
}

impl vstd::std_specs::convert::FromSpecImpl<Rotation> for u32 {
    open spec fn obeys_from_spec() -> bool {
        true
    }

    open spec fn from_spec(v: Rotation) -> u32 {
        v.index()
    }
}

/// Reflection of an output.
#[derive(Debug, Copy, Clone, PartialEq, Eq, Structural)]
pub enum Reflection {
    Normal,
    Horizontal,
    Vertical,
    Both,
}

impl Reflection {
    /// Name of the reflection as the xrandr command line takes it.
    pub open spec fn spec_xrandr(self) -> Seq<char> {
        match self {
            Reflection::Normal => "normal"@,
            Reflection::Horizontal => "x"@,
            Reflection::Vertical => "y"@,
            Reflection::Both => "xy"@,
        }
    }

    pub fn xrandr(&self) -> (r: String)
        ensures
            r@ == self.spec_xrandr(),
    {
        match *self {
            Reflection::Normal => "normal".to_owned(),
            Reflection::Horizontal => "x".to_owned(),
            Reflection::Vertical => "y".to_owned(),
            Reflection::Both => "xy".to_owned(),
        }
    }

    /// Position of the variant in declaration order.
    pub open spec fn index(self) -> u32 {
        match self {
            Reflection::Normal => 0,
            Reflection::Horizontal => 1,
            Reflection::Vertical => 2,
            Reflection::Both => 3,
        }
    }

    pub open spec fn spec_from_u32(value: u32) -> Reflection {
        if value == 0 {
            Reflection::Normal
        } else if value == 1 {
            Reflection::Horizontal
        } else if value == 2 {
            Reflection::Vertical
        } else {
            Reflection::Both
        }
    }

    /// The reflection at the given position; positions start at 0.
    pub fn from_u32(value: u32) -> (r: Reflection)
        requires
            value < 4,
        ensures
            r == Reflection::spec_from_u32(value),
            r.index() == value,
    {
        match value {
            0 => Reflection::Normal,
            1 => Reflection::Horizontal,
            2 => Reflection::Vertical,
            _ => Reflection::Both,
        }
    }

    /// Reflection read from a RandR rotation mask.
    pub open spec fn spec_from_randr(mask: u16) -> Reflection {
        if mask_contains(mask, REFLECT_X | REFLECT_Y) {
            Reflection::Both
        } else if mask_contains(mask, REFLECT_X) {
            Reflection::Horizontal
        } else if mask_contains(mask, REFLECT_Y) {
            Reflection::Vertical
        } else {
            Reflection::Normal
        }
    }

    pub fn from_randr(mask: u16) -> (r: Reflection)
        ensures
            r == Reflection::spec_from_randr(mask),
    {
        if contains(mask, REFLECT_X | REFLECT_Y) {
            Reflection::Both
        } else if contains(mask, REFLECT_X) {
            Reflection::Horizontal
        } else if contains(mask, REFLECT_Y) {
            Reflection::Vertical
        } else {
            Reflection::Normal
        }
    }

    /// RandR reflection bits of the reflection.
    pub open spec fn spec_to_randr(self) -> u16 {
        match self {
            Reflection::Normal => 0,
            Reflection::Horizontal => REFLECT_X,
            Reflection::Vertical => REFLECT_Y,
            Reflection::Both => REFLECT_X | REFLECT_Y,
        }
    }

    pub fn to_randr(self) -> (r: u16)
        ensures
            r == self.spec_to_randr(),
    {
        match self {
            Reflection::Normal => 0,
            Reflection::Horizontal => REFLECT_X,
            Reflection::Vertical => REFLECT_Y,
            Reflection::Both => REFLECT_X | REFLECT_Y,
        }
    }
}

impl Default for Reflection {
    fn default() -> (r: Self)
        ensures
            r == Reflection::Normal,
    {
        Reflection::Normal
    }
}

impl From<Reflection> for u32 {
    fn from(value: Reflection) -> u32 {
        match value {
            Reflection::Normal => 0,
            Reflection::Horizontal => 1,
            Reflection::Vertical => 2,
            Reflection::Both => 3,
        }
    }
}

impl vstd::std_specs::convert::FromSpecImpl<Reflection> for u32 {
    open spec fn obeys_from_spec() -> bool {
        true
    }

    open spec fn from_spec(v: Reflection) -> u32 {
        v.index()
    }
}

/// The RandR mask combining a rotation and a reflection.
pub open spec fn spec_rotation_mask(rotation: Rotation, reflection: Reflection) -> u16 {
    rotation.spec_to_randr() | reflection.spec_to_randr()
}

/// The RandR mask combining a rotation and a reflection.
pub fn rotation_mask(rotation: Rotation, reflection: Reflection) -> (r: u16)
    ensures
        r == spec_rotation_mask(rotation, reflection),
{
    rotation.to_randr() | reflection.to_randr()
}

proof fn lemma_mask_bits(r: u16, f: u16)
    by (bit_vector)
    requires
        r == 1 || r == 2 || r == 4 || r == 8,
        f == 0 || f == 16 || f == 32 || f == 48,
    ensures
        ((r | f) & 2 == 2) == (r == 2),
        ((r | f) & 8 == 8) == (r == 8),
        ((r | f) & 4 == 4) == (r == 4),
        ((r | f) & 48 == 48) == (f == 48),
        ((r | f) & 16 == 16) == (f == 16 || f == 48),
        ((r | f) & 32 == 32) == (f == 32 || f == 48),
        (f & 48 == 48) == (f == 48),
        (f & 16 == 16) == (f == 16 || f == 48),
        (f & 32 == 32) == (f == 32 || f == 48),
        (r & 2 == 2) == (r == 2),
        (r & 8 == 8) == (r == 8),
        (r & 4 == 4) == (r == 4),
{
}

/// A position turns into a rotation and back unchanged, and so does a rotation.
pub proof fn lemma_rotation_index_roundtrip(r: Rotation, v: u32)
    ensures
        Rotation::spec_from_u32(r.index()) == r,
        v < 4 ==> Rotation::spec_from_u32(v).index() == v,
{
}

/// A position turns into a reflection and back unchanged, and so does a reflection.
pub proof fn lemma_reflection_index_roundtrip(r: Reflection, v: u32)
    ensures
        Reflection::spec_from_u32(r.index()) == r,
        v < 4 ==> Reflection::spec_from_u32(v).index() == v,
{
}

/// Rotation and reflection both survive the way through a RandR mask, alone and
/// combined.
pub proof fn lemma_randr_roundtrip(rotation: Rotation, reflection: Reflection)
    ensures
        Rotation::spec_from_randr(rotation.spec_to_randr()) == rotation,
        Reflection::spec_from_randr(reflection.spec_to_randr()) == reflection,
        Rotation::spec_from_randr(spec_rotation_mask(rotation, reflection)) == rotation,
        Reflection::spec_from_randr(spec_rotation_mask(rotation, reflection)) == reflection,
{
    assert(16u16 | 32u16 == 48u16) by (bit_vector);
    lemma_mask_bits(rotation.spec_to_randr(), reflection.spec_to_randr());
}

} // verus!
