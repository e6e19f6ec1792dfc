use vstd::prelude::*;

verus! {

/// Where a dragged output is dropped relative to the target output.
#[derive(Debug, Copy, Clone, PartialEq, Eq, Structural)]
pub enum DragPosition {
    Swap,
    Top,
    Bottom,
    Left,
    Right,
}

/// Alignment of a widget inside its grid cell.
#[derive(Debug, Copy, Clone, PartialEq, Eq, Structural)]
pub enum Align {
    Fill,
    Start,
    End,
    Center,
    Baseline,
}

/// The grid cell next to the cell at (`left`, `top`) on the given side; the cell
/// itself for a swap. Rows and columns span one cell each.
pub fn get_pos_next_to(left: i32, top: i32, position: DragPosition) -> (r: (i32, i32))
    requires
        left > i32::MIN && left < i32::MAX,
        top > i32::MIN && top < i32::MAX,
    ensures
        r == (match position {
            DragPosition::Left => ((left - 1) as i32, top),
            DragPosition::Right => ((left + 1) as i32, top),
            DragPosition::Top => (left, (top - 1) as i32),
            DragPosition::Bottom => (left, (top + 1) as i32),
            DragPosition::Swap => (left, top),
        }),
{
    match position {
        DragPosition::Left => (left - 1, top),
        DragPosition::Right => (left + 1, top),
        DragPosition::Top => (left, top - 1),
        DragPosition::Bottom => (left, top + 1),
        DragPosition::Swap => (left, top),
    }
}

/// The alignment a right click cycles to: start, center, end, start again; any other
/// alignment goes to center.
pub fn next_alignment(align: Align) -> (r: Align)
    ensures
        r == (match align {
            Align::Start => Align::Center,
            Align::Center => Align::End,
            Align::End => Align::Start,
            _ => Align::Center,
        }),
{
    let alignments = [Align::Start, Align::Center, Align::End];
    let mut i: usize = 0;
    while i < 3
        invariant
            0 <= i <= 3,
            alignments@ == seq![Align::Start, Align::Center, Align::End],
            forall|j: int| 0 <= j < i ==> alignments@[j] != align,
        decreases 3 - i,
    {
        if alignments[i] == align {
            return alignments[(i + 1) % 3];
        }
        i += 1;
    }
    Align::Center
}

/// Cycling the alignment three times returns to the start for the cycled alignments.
pub proof fn lemma_alignment_cycle(a: Align)
    requires
        a == Align::Start || a == Align::Center || a == Align::End,
    ensures
        ({
            let n1 = match a {
                Align::Start => Align::Center,
                Align::Center => Align::End,
                _ => Align::Start,
            };
            let n2 = match n1 {
                Align::Start => Align::Center,
                Align::Center => Align::End,
                _ => Align::Start,
            };
            let n3 = match n2 {
                Align::Start => Align::Center,
                Align::Center => Align::End,
                _ => Align::Start,
            };
            n3 == a
        }),
{
}

} // verus!
