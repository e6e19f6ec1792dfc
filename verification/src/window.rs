use vstd::prelude::*;

use crate::update::Update;

use crate::output::Output;
use crate::outputs::Outputs;

verus! {

/// Space around and between drawn outputs, in pixels.
pub const PADDING: u16 = 12;

/// Space between controls, in pixels.
pub const SPACING: u16 = 6;

/// The outputs that are (`enabled`) or are not (`!enabled`) enabled, in order.
pub open spec fn select_enabled(s: Seq<Output>, enabled: bool) -> Seq<Output>
    decreases s.len(),
{
    if s.len() == 0 {
        seq![]
    } else {
        let p = select_enabled(s.drop_last(), enabled);
        if s.last().spec_enabled() == enabled {
            p.push(s.last())
        } else {
            p
        }
    }
}

/// Splits the outputs into the enabled and the disabled ones, each in order.
pub fn split_by_enabled(outputs: Outputs) -> (r: (Outputs, Outputs))
    ensures
        r.0@ == select_enabled(outputs@, true),
        r.1@ == select_enabled(outputs@, false),
{
    let ghost orig = outputs@;
    let mut rest = outputs.into_vec();
    let mut enabled = Outputs::new();
    let mut disabled = Outputs::new();
    let total = rest.len();
    let mut k: usize = 0;
    while k < total
        invariant
            0 <= k <= orig.len(),
            orig.len() == total,
            rest@ == orig.subrange(k as int, orig.len() as int),
            enabled@ == select_enabled(orig.take(k as int), true),
            disabled@ == select_enabled(orig.take(k as int), false),
        decreases total - k,
    {
        let o = rest.remove(0);
        proof {
            assert(orig.take(k + 1).drop_last() =~= orig.take(k as int));
            assert(orig.take(k + 1).last() == o);
        }
        if o.enabled() {
            enabled.append(o);
        } else {
            disabled.append(o);
        }
        k += 1;
        assert(rest@ =~= orig.subrange(k as int, orig.len() as int));
    }
    assert(orig.take(k as int) =~= orig);
    (enabled, disabled)
}

/// All outputs of both areas: the enabled ones, then the disabled ones.
pub fn join_outputs(enabled: Outputs, disabled: Outputs) -> (r: Outputs)
    ensures
        r@ == enabled@ + disabled@,
{
    let mut all = enabled;
    let mut rest = disabled.into_vec();
    let ghost d = rest@;
    let ghost e = all@;
    let total = rest.len();
    let mut k: usize = 0;
    while k < total
        invariant
            0 <= k <= d.len(),
            d.len() == total,
            rest@ == d.subrange(k as int, d.len() as int),
            all@ == e + d.take(k as int),
        decreases total - k,
    {
        let o = rest.remove(0);
        all.append(o);
        k += 1;
        assert(all@ =~= e + d.take(k as int));
        assert(rest@ =~= d.subrange(k as int, d.len() as int));
    }
    assert(d.take(k as int) =~= d);
    all
}

/// Where the selection goes when the outputs are reloaded.
#[derive(Clone, Copy, Debug, PartialEq, Eq, Structural)]
pub enum SelectionTransfer {
    /// The selection stays in its area.
    Keep,
    /// The output got disabled: the disabled area selects it.
    ToDisabled,
    /// The output got enabled: the enabled area selects it.
    ToEnabled,
}

/// Where the selection of `selected` goes once it is reloaded as `reloaded`.
pub fn selection_transfer(selected: &Output, reloaded: &Output) -> (r: SelectionTransfer)
    ensures
        r == (if selected.spec_enabled() && !reloaded.spec_enabled() {
            SelectionTransfer::ToDisabled
        } else if !selected.spec_enabled() && reloaded.spec_enabled() {
            SelectionTransfer::ToEnabled
        } else {
            SelectionTransfer::Keep
        }),
{
    if selected.enabled() && !reloaded.enabled() {
        SelectionTransfer::ToDisabled
    } else if !selected.enabled() && reloaded.enabled() {
        SelectionTransfer::ToEnabled
    } else {
        SelectionTransfer::Keep
    }
}

/// The output the Delete key acts on, by id, and what happens to it: the output
/// selected in the area of enabled outputs is disabled; without one, the output
/// selected in the area of disabled outputs is enabled.
pub fn delete_key_target(enabled_selected: Option<u32>, disabled_selected: Option<u32>) -> (r: Option<
    (u32, Update),
>)
    ensures
        r == (match enabled_selected {
            Some(id) => Some((id, Update::Disabled)),
            None => match disabled_selected {
                Some(id) => Some((id, Update::Enabled)),
                None => None,
            },
        }),
{
    match enabled_selected {
        Some(id) => Some((id, Update::Disabled)),
        None => match disabled_selected {
            Some(id) => Some((id, Update::Enabled)),
            None => None,
        },
    }
}

/// The handle between the two areas toggles: at its rightmost position `max` it goes
/// back to the position it was last moved from; elsewhere it goes to `max` and its
/// position is remembered. Returns the new position and the remembered one.
pub fn toggle_handle_position(cur: i32, max: i32, last: i32) -> (r: (i32, i32))
    ensures
        r == (if cur == max {
            (last, last)
        } else {
            (max, cur)
        }),
{
    if cur == max {
        (last, last)
    } else {
        (max, cur)
    }
}

/// The revert countdown after one more second has passed with `seconds_left` shown:
/// the number to show next, or `None` when the time is up and the changes are
/// reverted.
pub fn countdown_tick(seconds_left: u8) -> (r: Option<u8>)
    ensures
        r == (if seconds_left > 1 {
            Some((seconds_left - 1) as u8)
        } else {
            None::<u8>
        }),
{
    if seconds_left > 1 {
        Some(seconds_left - 1)
    } else {
        None
    }
}

/// What follows an attempt to apply a layout.
#[derive(Clone, Copy, Debug, PartialEq, Eq, Structural)]
pub enum AfterApply {
    /// The layout was applied and the user is asked to keep it, with a countdown of
    /// that many seconds to the revert, or without a countdown.
    Confirm { countdown: Option<u8> },
    /// Applying failed: the changes are reverted and the failure is reported.
    RevertAfterFailure,
}

/// A step taken after an attempt to apply a layout.
#[derive(Clone, Copy, Debug, PartialEq, Eq, Structural)]
pub enum ApplyAction {
    /// Runs the hook configured for an applied layout.
    RunApplyHook,
    /// Asks the user to keep the applied layout.
    ShowConfirm,
    /// Restores the configuration saved before the layout was applied.
    Revert,
    /// Runs the hook configured for a reverted layout.
    RunRevertHook,
    /// Reports that the changes have been reverted after a failure.
    ShowFailure,
}

/// What happens while the user is asked to keep an applied layout.
#[derive(Clone, Copy, Debug, PartialEq, Eq, Structural)]
pub enum ConfirmEvent {
    /// The user keeps the layout.
    Keep,
    /// The user reverts the layout.
    Revert,
    /// One second of the countdown has passed.
    Tick,
}

/// How the question to keep an applied layout goes on.
#[derive(Clone, Copy, Debug, PartialEq, Eq, Structural)]
pub enum ConfirmStep {
    /// The layout is kept and the question closed.
    Done,
    /// The question is closed and the layout reverted.
    Revert,
    /// The countdown goes on, showing that many seconds.
    Countdown(u8),
}

/// What follows an attempt to apply a layout: when it succeeded, the user is asked to
/// keep it, counting down to the revert when the timeout is above zero; when it
/// failed, the changes are reverted.
pub fn after_apply(applied: bool, revert_timeout: u8) -> (r: AfterApply)
    ensures
        r == (if !applied {
            AfterApply::RevertAfterFailure
        } else if revert_timeout > 0 {
            AfterApply::Confirm { countdown: Some(revert_timeout) }
        } else {
            AfterApply::Confirm { countdown: None }
        }),
{
    if !applied {
        AfterApply::RevertAfterFailure
    } else if revert_timeout > 0 {
        AfterApply::Confirm { countdown: Some(revert_timeout) }
    } else {
        AfterApply::Confirm { countdown: None }
    }
}

/// The steps after an attempt to apply a layout, in order: on success the apply hook
/// runs and the user is asked to keep the layout; on failure the changes are
/// reverted, the revert hook runs and the failure is reported.
pub fn apply_actions(applied: bool) -> (r: Vec<ApplyAction>)
    ensures
        r@ == (if applied {
            seq![ApplyAction::RunApplyHook, ApplyAction::ShowConfirm]
        } else {
            seq![ApplyAction::Revert, ApplyAction::RunRevertHook, ApplyAction::ShowFailure]
        }),
{
    let mut r: Vec<ApplyAction> = Vec::new();
    if applied {
        r.push(ApplyAction::RunApplyHook);
        r.push(ApplyAction::ShowConfirm);
    } else {
        r.push(ApplyAction::Revert);
        r.push(ApplyAction::RunRevertHook);
        r.push(ApplyAction::ShowFailure);
    }
    assert(r@ =~= (if applied {
        seq![ApplyAction::RunApplyHook, ApplyAction::ShowConfirm]
    } else {
        seq![ApplyAction::Revert, ApplyAction::RunRevertHook, ApplyAction::ShowFailure]
    }));
    r
}

/// The next step of the question to keep an applied layout with `seconds_left` shown,
/// with the actions it takes: keeping ends it, reverting reverts, and a passing
/// second counts down, reverting once the time is up. A revert restores the saved
/// configuration and runs the revert hook.
pub fn confirm_step(event: ConfirmEvent, seconds_left: u8) -> (r: (ConfirmStep, Vec<ApplyAction>))
    ensures
        r.0 == (match event {
            ConfirmEvent::Keep => ConfirmStep::Done,
            ConfirmEvent::Revert => ConfirmStep::Revert,
            ConfirmEvent::Tick => if seconds_left > 1 {
                ConfirmStep::Countdown((seconds_left - 1) as u8)
            } else {
                ConfirmStep::Revert
            },
        }),
        r.1@ == (if r.0 == ConfirmStep::Revert {
            seq![ApplyAction::Revert, ApplyAction::RunRevertHook]
        } else {
            Seq::<ApplyAction>::empty()
        }),
{
    let step = match event {
        ConfirmEvent::Keep => ConfirmStep::Done,
        ConfirmEvent::Revert => ConfirmStep::Revert,
        ConfirmEvent::Tick => match countdown_tick(seconds_left) {
            Some(n) => ConfirmStep::Countdown(n),
            None => ConfirmStep::Revert,
        },
    };
    let mut actions: Vec<ApplyAction> = Vec::new();
    if step == ConfirmStep::Revert {
        actions.push(ApplyAction::Revert);
        actions.push(ApplyAction::RunRevertHook);
    }
    assert(actions@ =~= (if step == ConfirmStep::Revert {
        seq![ApplyAction::Revert, ApplyAction::RunRevertHook]
    } else {
        Seq::<ApplyAction>::empty()
    }));
    (step, actions)
}

/// Splitting keeps every output: the two parts together are as long as the list.
pub proof fn lemma_split_partitions(s: Seq<Output>)
    ensures
        select_enabled(s, true).len() + select_enabled(s, false).len() == s.len(),
        forall|i: int|
            0 <= i < select_enabled(s, true).len() ==> (#[trigger] select_enabled(s, true)[i]).spec_enabled(),
        forall|i: int|
            0 <= i < select_enabled(s, false).len() ==> !(#[trigger] select_enabled(s, false)[i]).spec_enabled(),
    decreases s.len(),
{
    if s.len() > 0 {
        lemma_split_partitions(s.drop_last());
        let p = select_enabled(s.drop_last(), true);
        let q = select_enabled(s.drop_last(), false);
        assert forall|i: int|
            0 <= i < select_enabled(s, true).len() implies (#[trigger] select_enabled(s, true)[i]).spec_enabled() by {
            if i < p.len() {
                assert(select_enabled(s, true)[i] == p[i]);
            }
        }
        assert forall|i: int|
            0 <= i < select_enabled(s, false).len() implies !(#[trigger] select_enabled(s, false)[i]).spec_enabled() by {
            if i < q.len() {
                assert(select_enabled(s, false)[i] == q[i]);
            }
        }
    }
}

} // verus!
