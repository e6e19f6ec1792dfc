use vstd::prelude::*;

use crate::output::Output;
use crate::outputs::{has_output, is_first_output, Outputs};
use crate::update::Update;
use crate::window::PADDING;

verus! {

/// A value clamped to the largest `i16`.
pub open spec fn cap_i16(v: int) -> int {
    if v <= i16::MAX {
        v
    } else {
        i16::MAX as int
    }
}

/// The smaller of two integers.
pub open spec fn min_of(a: int, b: int) -> int {
    if a <= b {
        a
    } else {
        b
    }
}

/// The list of disabled outputs, drawn as a column of equally sized boxes, and the
/// selected one.
pub struct DisabledOutputArea {
    outputs: Outputs,
    selected_output: Option<u32>,
    is_dragging: bool,
}

impl DisabledOutputArea {
    pub closed spec fn spec_outputs(&self) -> Seq<Output> {
        self.outputs@
    }

    pub closed spec fn spec_selected(&self) -> Option<u32> {
        self.selected_output
    }

    pub closed spec fn spec_dragging(&self) -> bool {
        self.is_dragging
    }

    pub fn new(outputs: Outputs) -> (r: Self)
        ensures
            r.spec_outputs() == outputs@,
            r.spec_selected() is None,
            !r.spec_dragging(),
    {
        DisabledOutputArea { outputs, selected_output: None, is_dragging: false }
    }

    pub fn outputs(&self) -> (r: &Outputs)
        ensures
            r@ == self.spec_outputs(),
    {
        &self.outputs
    }

    /// Replaces the outputs; the selection stays on the output with the selected id if
    /// the new list has one.
    pub fn set_outputs(&mut self, outputs: Outputs)
        ensures
            final(self).spec_outputs() == outputs@,
            final(self).spec_selected() == (match old(self).spec_selected() {
                Some(id) => if has_output(outputs@, id) {
                    Some(id)
                } else {
                    None
                },
                None => None,
            }),
            final(self).spec_dragging() == old(self).spec_dragging(),
    {
        let selected = match self.selected_output {
            Some(id) => match outputs.find_by_id(id) {
                Some(o) => Some(o.id()),
                None => None,
            },
            None => None,
        };
        self.outputs = outputs;
        self.selected_output = selected;
    }

    pub fn select(&mut self, output: &Output)
        ensures
            final(self).spec_selected() == Some(output.spec_id()),
            final(self).spec_outputs() == old(self).spec_outputs(),
            final(self).spec_dragging() == old(self).spec_dragging(),
    {
        self.selected_output = Some(output.id());
    }

    pub fn deselect(&mut self)
        ensures
            final(self).spec_selected() is None,
            final(self).spec_outputs() == old(self).spec_outputs(),
            final(self).spec_dragging() == old(self).spec_dragging(),
    {
        self.selected_output = None;
    }

    /// Id of the selected output.
    pub fn selected_output(&self) -> (r: Option<u32>)
        ensures
            r == self.spec_selected(),
    {
        self.selected_output
    }

    /// Dragging of an output starts or ends.
    pub fn set_dragging(&mut self, dragging: bool)
        ensures
            final(self).spec_dragging() == dragging,
            final(self).spec_outputs() == old(self).spec_outputs(),
            final(self).spec_selected() == old(self).spec_selected(),
    {
        self.is_dragging = dragging;
    }

    /// Follows a change of an output: an enabled output leaves the list and the
    /// selection is cleared, a disabled output joins the list and is selected.
    pub fn update(&mut self, output: Output, update: Update)
        requires
            update == Update::Enabled ==> has_output(old(self).spec_outputs(), output.spec_id()),
        ensures
            update == Update::Enabled ==> final(self).spec_selected() is None && exists|i: int|
                is_first_output(old(self).spec_outputs(), output.spec_id(), i)
                    && final(self).spec_outputs() == old(self).spec_outputs().remove(i),
            update == Update::Disabled ==> final(self).spec_selected() == Some(output.spec_id())
                && final(self).spec_outputs() == old(self).spec_outputs().push(output),
            update != Update::Enabled && update != Update::Disabled ==> final(self).spec_outputs()
                == old(self).spec_outputs() && final(self).spec_selected() == old(self).spec_selected(),
            final(self).spec_dragging() == old(self).spec_dragging(),
    {
        match update {
            Update::Enabled => {
                self.selected_output = None;
                self.outputs.remove(output.id());
            },
            Update::Disabled => {
                let id = output.id();
                self.outputs.append(output);
                self.selected_output = Some(id);
            },
            _ => {},
        }
    }

    /// Whether the output is drawn: all outputs are, but the selected one while it is
    /// dragged.
    pub fn is_drawn(&self, output: &Output) -> (r: bool)
        ensures
            r == (self.spec_selected() is None || !self.spec_dragging() || self.spec_selected()
                != Some(output.spec_id())),
    {
        match self.selected_output {
            None => true,
            Some(s) => !self.is_dragging || s != output.id(),
        }
    }
}

/// Top left corner of the box of the `index`-th drawn output.
pub fn get_output_pos(index: usize, output_height: u16) -> (r: [i16; 2])
    requires
        index <= u32::MAX,
        (index + 1) * (PADDING as int) + index * output_height <= u32::MAX,
    ensures
        r[0] == PADDING,
        r[1] == cap_i16((index + 1) * (PADDING as int) + index * output_height),
{
    let index = index as u32;
    proof {
        assert((index + 1) * (PADDING as int) + index * output_height <= u32::MAX);
        assert(0 <= index * (output_height as int) <= u32::MAX) by (nonlinear_arith)
            requires
                (index + 1) * 12 + index * output_height <= u32::MAX,
                index >= 0,
                output_height >= 0,
        ;
    }
    let x: i16 = PADDING as i16;
    let v = (index + 1) * (PADDING as u32) + index * (output_height as u32);
    let y: i16 = if v <= i16::MAX as u32 {
        v as i16
    } else {
        i16::MAX
    };
    [x, y]
}

/// Size of the box of each drawn output: as large as the area allows with a 16:9
/// shape, each side rounded to the nearest pixel; no size without outputs. The width
/// left of the padding is taken modulo 2^16.
pub fn get_output_dim(w: i32, h: i32, n_disabled: usize) -> (r: [u16; 2])
    requires
        n_disabled > 0 ==> w >= 0 && h >= 0,
        n_disabled > 0 ==> n_disabled <= u32::MAX,
        n_disabled > 0 ==> (n_disabled + 1) * (PADDING as int) <= u32::MAX,
    ensures
        n_disabled == 0 ==> r[0] == 0 && r[1] == 0,
        n_disabled > 0 ==> ({
            let max_width = ((if w >= 2 * PADDING {
                w - 2 * PADDING
            } else {
                0
            }) as u32) as u16;
            let max_height = ((if h >= (n_disabled + 1) * PADDING {
                h - (n_disabled + 1) * PADDING
            } else {
                0
            }) / (n_disabled as int)) as u16;
            &&& r[0] == min_of(max_width as int, (32 * max_height + 9) / 18)
            &&& r[1] == min_of(max_height as int, (9 * max_width + 8) / 16)
        }),
{
    if n_disabled == 0 {
        return [0, 0];
    }
    let w = w as u32;
    let h = h as u32;
    let n = n_disabled as u32;
    let pad = PADDING as u32;
    let avail_w = if w >= 2 * pad {
        w - 2 * pad
    } else {
        0
    };
    let max_width = avail_w as u16;
    let gaps = (n + 1) * pad;
    let avail_h = if h >= gaps {
        h - gaps
    } else {
        0
    };
    let max_height = (avail_h / n) as u16;
    let wide = (32 * (max_height as u32) + 9) / 18;
    let high = (9 * (max_width as u32) + 8) / 16;
    let width = if (max_width as u32) <= wide {
        max_width
    } else {
        wide as u16
    };
    let height = if (max_height as u32) <= high {
        max_height
    } else {
        high as u16
    };
    [width, height]
}

} // verus!
