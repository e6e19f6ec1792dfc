use vstd::prelude::*;

use crate::enums::{Reflection, Rotation};
use crate::mode::Mode;
use crate::output::Output;
use crate::update::Update;

verus! {

/// A coordinate axis.
#[derive(Clone, Copy, Debug, PartialEq, Eq, Structural)]
pub enum Axis {
    X,
    Y,
}

impl From<Axis> for usize {
    fn from(axis: Axis) -> usize {
        match axis {
            Axis::X => 0,
            Axis::Y => 1,
        }
    }
}

impl vstd::std_specs::convert::FromSpecImpl<Axis> for usize {
    open spec fn obeys_from_spec() -> bool {
        true
    }

    open spec fn from_spec(axis: Axis) -> usize {
        match axis {
            Axis::X => 0,
            Axis::Y => 1,
        }
    }
}

/// A value clamped to the largest `i16`.
pub open spec fn clamp_to_i16(v: int) -> int {
    if v <= i16::MAX {
        v
    } else {
        i16::MAX as int
    }
}

/// The details of the selected output: the limits its position may take.
pub struct DetailsBox {
    screen_max_width: u16,
    screen_max_height: u16,
}

impl DetailsBox {
    pub closed spec fn spec_max_width(&self) -> u16 {
        self.screen_max_width
    }

    pub closed spec fn spec_max_height(&self) -> u16 {
        self.screen_max_height
    }

    pub fn new() -> (r: Self)
        ensures
            r.spec_max_width() == 0,
            r.spec_max_height() == 0,
    {
        DetailsBox { screen_max_width: 0, screen_max_height: 0 }
    }

    pub fn set_screen_max_width(&mut self, screen_max_width: u16)
        ensures
            final(self).spec_max_width() == screen_max_width,
            final(self).spec_max_height() == old(self).spec_max_height(),
    {
        self.screen_max_width = screen_max_width;
    }

    pub fn set_screen_max_height(&mut self, screen_max_height: u16)
        ensures
            final(self).spec_max_height() == screen_max_height,
            final(self).spec_max_width() == old(self).spec_max_width(),
    {
        self.screen_max_height = screen_max_height;
    }

    /// Largest x coordinate the output may take: the room the largest screen leaves
    /// beside it, at most the largest `i16`.
    pub fn max_x(&self, output: &Output) -> (r: i16)
        ensures
            r == clamp_to_i16(
                if self.spec_max_width() >= output.spec_width() {
                    self.spec_max_width() - output.spec_width()
                } else {
                    0
                },
            ),
    {
        max_position(self.screen_max_width, output.width())
    }

    /// Largest y coordinate the output may take: the room the largest screen leaves
    /// below it, at most the largest `i16`.
    pub fn max_y(&self, output: &Output) -> (r: i16)
        ensures
            r == clamp_to_i16(
                if self.spec_max_height() >= output.spec_height() {
                    self.spec_max_height() - output.spec_height()
                } else {
                    0
                },
            ),
    {
        max_position(self.screen_max_height, output.height())
    }
}

/// Largest coordinate of an output of the given size on a screen of at most
/// `screen_max`, at most the largest `i16`.
pub fn max_position(screen_max: u16, size: u16) -> (r: i16)
    ensures
        r == clamp_to_i16(
            if screen_max >= size {
                screen_max - size
            } else {
                0
            },
        ),
{
    let room = if screen_max >= size {
        screen_max - size
    } else {
        0
    };
    if room <= i16::MAX as u16 {
        room as i16
    } else {
        i16::MAX
    }
}

/// What a change of mode from `old_mode` to `new_mode` reports: a new resolution, or
/// a refresh update when the refresh rates are nearly equal; nothing when either
/// mode is missing.
pub fn mode_update(old_mode: Option<Mode>, new_mode: Option<Mode>, refresh_nearly_equal: bool) -> (r:
    Option<Update>)
    ensures
        r == (match (old_mode, new_mode) {
            (Some(o), Some(n)) => if o.spec_width() != n.spec_width() || o.spec_height()
                != n.spec_height() {
                Some(Update::Resolution)
            } else if refresh_nearly_equal {
                Some(Update::Refresh)
            } else {
                None
            },
            _ => None,
        }),
{
    match (old_mode, new_mode) {
        (Some(o), Some(n)) => {
            if o.width() != n.width() || o.height() != n.height() {
                Some(Update::Resolution)
            } else if refresh_nearly_equal {
                Some(Update::Refresh)
            } else {
                None
            }
        },
        _ => None,
    }
}

/// Sets the selected rotation; reports whether it changed.
pub fn select_rotation(output: &mut Output, rotation: Rotation) -> (changed: bool)
    ensures
        changed == (old(output).spec_rotation() != rotation),
        changed ==> final(output).spec_rotation() == rotation && final(output).same_but_mode(old(output))
            && final(output).spec_mode() == old(output).spec_mode(),
        !changed ==> *final(output) == *old(output),
{
    if rotation != output.rotation() {
        output.set_rotation(rotation);
        true
    } else {
        false
    }
}

/// Sets the selected reflection; reports whether it changed.
pub fn select_reflection(output: &mut Output, reflection: Reflection) -> (changed: bool)
    ensures
        changed == (old(output).spec_reflection() != reflection),
        changed ==> final(output).spec_reflection() == reflection && final(output).same_but(
            old(output),
            false,
            false,
            false,
            true,
        ),
        !changed ==> *final(output) == *old(output),
{
    if reflection != output.reflection() {
        output.set_reflection(reflection);
        true
    } else {
        false
    }
}

/// Marks the output primary when the box is checked; only an enabled output can be.
pub fn check_primary(output: &mut Output, active: bool)
    ensures
        final(output).spec_primary() == (old(output).spec_enabled() && active),
        final(output).same_but(old(output), false, true, false, false),
{
    let primary = output.enabled() && active;
    output.set_primary(primary);
}

/// Moves the output along one axis; reports whether the coordinate changed.
pub fn move_output(output: &mut Output, axis: Axis, coord: i16) -> (changed: bool)
    ensures
        changed == (match axis {
            Axis::X => old(output).spec_x() != coord,
            Axis::Y => old(output).spec_y() != coord,
        }),
        changed ==> match axis {
            Axis::X => final(output).spec_x() == coord && final(output).spec_y() == old(output).spec_y(),
            Axis::Y => final(output).spec_y() == coord && final(output).spec_x() == old(output).spec_x(),
        },
        changed ==> final(output).same_but(old(output), false, false, true, false),
        !changed ==> *final(output) == *old(output),
{
    let cur_pos = match axis {
        Axis::X => output.x(),
        Axis::Y => output.y(),
    };
    if cur_pos != coord {
        match axis {
            Axis::X => output.set_x(coord),
            Axis::Y => output.set_y(coord),
        }
        true
    } else {
        false
    }
}

/// Follows the switch that enables the output: switched on, the output is enabled
/// with its first mode at the default position; switched off, it is disabled. Reports
/// which of the two happened.
pub fn switch_enabled(output: &mut Output, active: bool) -> (u: Update)
    requires
        active ==> old(output).spec_modes().len() > 0,
    ensures
        u == (if active {
            Update::Enabled
        } else {
            Update::Disabled
        }),
        active ==> final(output).enabled_from(*old(output), -1i16, -1i16),
        !active ==> final(output).disabled_from(*old(output)),
{
    if active {
        output.enable();
        Update::Enabled
    } else {
        output.disable();
        Update::Disabled
    }
}

/// Whether a detail row is shown: all rows for an enabled output, only the switch
/// that enables it for a disabled one, none without an output.
pub fn child_visible(output: Option<&Output>, is_enabled_switch: bool) -> (r: bool)
    ensures
        r == (match output {
            Some(o) => o.spec_enabled() || is_enabled_switch,
            None => false,
        }),
{
    match output {
        Some(o) => o.enabled() || is_enabled_switch,
        None => false,
    }
}

} // verus!
