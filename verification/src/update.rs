use vstd::prelude::*;

verus! {

/// What changed on an output in the details view.
#[derive(Debug, Clone, Copy, PartialEq, Eq, Structural)]
pub enum Update {
    Enabled,
    Disabled,
    Resolution,
    Refresh,
    Rotation,
    Reflection,
    Position,
    Primary,
}

impl Update {
    /// Position of the variant in declaration order.
    pub open spec fn index(self) -> u8 {
        match self {
            Update::Enabled => 0,
            Update::Disabled => 1,
            Update::Resolution => 2,
            Update::Refresh => 3,
            Update::Rotation => 4,
            Update::Reflection => 5,
            Update::Position => 6,
            Update::Primary => 7,
        }
    }

    /// The update at the given position; positions start at 0.
    pub fn from_u8(v: u8) -> (r: Update)
        requires
            v < 8,
        ensures
            r.index() == v,
    {
        match v {
            0 => Update::Enabled,
            1 => Update::Disabled,
            2 => Update::Resolution,
            3 => Update::Refresh,
            4 => Update::Rotation,
            5 => Update::Reflection,
            6 => Update::Position,
            _ => Update::Primary,
        }
    }

    /// Position of the update in declaration order.
    pub fn to_u8(self) -> (r: u8)
        ensures
            r == self.index(),
    {
        match self {
            Update::Enabled => 0,
            Update::Disabled => 1,
            Update::Resolution => 2,
            Update::Refresh => 3,
            Update::Rotation => 4,
            Update::Reflection => 5,
            Update::Position => 6,
            Update::Primary => 7,
        }
    }
}

impl From<Update> for u8 {
    fn from(v: Update) -> u8 {
        v.to_u8()
    }
}

impl vstd::std_specs::convert::FromSpecImpl<Update> for u8 {
    open spec fn obeys_from_spec() -> bool {
        true
    }

    open spec fn from_spec(v: Update) -> u8 {
        v.index()
    }
}

/// Positions identify updates: two updates with the same position are equal.
pub proof fn lemma_update_index_injective(a: Update, b: Update)
    ensures
        a.index() == b.index() ==> a == b,
        a.index() < 8,
{
}

} // verus!
