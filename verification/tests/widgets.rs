use rrandr::details::{
    check_primary, child_visible, max_position, mode_update, move_output, select_reflection, select_rotation,
    switch_enabled, Axis, DetailsBox,
};
use rrandr::disabled_area::{get_output_dim, get_output_pos, DisabledOutputArea};
use rrandr::enums::{Reflection, Rotation};
use rrandr::mode::Mode;
use rrandr::modes::Modes;
use rrandr::output::Output;
use rrandr::output_view::{get_pos_next_to, next_alignment, Align, DragPosition};
use rrandr::outputs::Outputs;
use rrandr::update::Update;
use rrandr::window::{
    after_apply, apply_actions, confirm_step, AfterApply, ApplyAction, ConfirmEvent, ConfirmStep, countdown_tick, delete_key_target, join_outputs, selection_transfer, split_by_enabled, toggle_handle_position,
    SelectionTransfer, PADDING, SPACING,
};

fn output(id: u32, enabled: bool, pos: [i16; 2]) -> Output {
    let mut modes = Modes::new();
    modes.append(&Mode::new(10, 1920, 1080));
    modes.append(&Mode::new(11, 1280, 720));
    let mode = if enabled { Some(modes.get(0)) } else { None };
    Output::new(
        id,
        format!("OUT-{id}"),
        None,
        enabled,
        false,
        pos,
        mode,
        modes,
        Rotation::Normal,
        Reflection::Normal,
        [0, 0],
        [0, 0],
    )
}

fn ids(outputs: &Outputs) -> Vec<u32> {
    (0..outputs.len()).map(|i| outputs.index(i).id()).collect()
}

fn list(specs: &[(u32, bool)]) -> Outputs {
    let mut outputs = Outputs::new();
    for &(id, enabled) in specs {
        outputs.append(output(id, enabled, [0, 0]));
    }
    outputs
}

#[test]
fn layout_constants() {
    assert_eq!(PADDING, 12);
    assert_eq!(SPACING, 6);
}

#[test]
fn disabled_output_positions() {
    assert_eq!(get_output_pos(0, 100), [12, 12]);
    assert_eq!(get_output_pos(2, 100), [12, 236]);
    assert_eq!(get_output_pos(1000, 1000), [12, i16::MAX]);
}

#[test]
fn disabled_output_dims() {
    assert_eq!(get_output_dim(500, 500, 0), [0, 0]);
    assert_eq!(get_output_dim(-5, -7, 0), [0, 0]);
    assert_eq!(get_output_dim(174, 100, 1), [135, 76]);
    // one output: 476 x 476 available, 16:9 keeps the width
    assert_eq!(get_output_dim(500, 500, 1), [476, 268]);
    // two outputs: height per output (500 - 36) / 2 = 232
    assert_eq!(get_output_dim(200, 500, 2), [176, 99]);
    // tall narrow area: the height limits
    assert_eq!(get_output_dim(1000, 100, 1), [135, 76]);
    // too small
    assert_eq!(get_output_dim(10, 10, 1), [0, 0]);
}

#[test]
fn disabled_output_dims_match_float_rounding() {
    for (w, h, n) in [(640i32, 480i32, 1usize), (300, 900, 3), (123, 457, 2), (1000, 1000, 5), (37, 2000, 1)] {
        let max_w = (w as u32).saturating_sub(24) as u16;
        let max_h = ((h as u32).saturating_sub((n as u32 + 1) * 12) / n as u32) as u16;
        let width = max_w.min((f64::from(max_h) * 16. / 9.).round() as u16);
        let height = max_h.min((f64::from(max_w) * 9. / 16.).round() as u16);
        assert_eq!(get_output_dim(w, h, n), [width, height], "{w} {h} {n}");
    }
}

#[test]
fn disabled_area_selection() {
    let mut area = DisabledOutputArea::new(list(&[(1, false), (2, false)]));
    assert_eq!(area.selected_output(), None);
    let o = output(2, false, [0, 0]);
    area.select(&o);
    assert_eq!(area.selected_output(), Some(2));
    area.set_dragging(true);
    assert!(!area.is_drawn(&o));
    assert!(area.is_drawn(&output(1, false, [0, 0])));
    area.set_dragging(false);
    assert!(area.is_drawn(&o));
    area.deselect();
    assert_eq!(area.selected_output(), None);
}

#[test]
fn disabled_area_set_outputs_keeps_known_selection() {
    let mut area = DisabledOutputArea::new(list(&[(1, false), (2, false)]));
    area.select(&output(2, false, [0, 0]));
    area.set_outputs(list(&[(2, false), (3, false)]));
    assert_eq!(area.selected_output(), Some(2));
    area.set_outputs(list(&[(3, false)]));
    assert_eq!(area.selected_output(), None);
    assert_eq!(ids(area.outputs()), vec![3]);
}

#[test]
fn disabled_area_update() {
    let mut area = DisabledOutputArea::new(list(&[(1, false), (2, false)]));
    area.update(output(3, false, [0, 0]), Update::Disabled);
    assert_eq!(ids(area.outputs()), vec![1, 2, 3]);
    assert_eq!(area.selected_output(), Some(3));
    area.update(output(1, true, [0, 0]), Update::Enabled);
    assert_eq!(ids(area.outputs()), vec![2, 3]);
    assert_eq!(area.selected_output(), None);
    area.update(output(2, false, [0, 0]), Update::Position);
    assert_eq!(ids(area.outputs()), vec![2, 3]);
}

#[test]
fn details_max_positions() {
    let mut details = DetailsBox::new();
    let o = output(1, true, [0, 0]);
    assert_eq!((details.max_x(&o), details.max_y(&o)), (0, 0));
    details.set_screen_max_width(8192);
    details.set_screen_max_height(8192);
    assert_eq!((details.max_x(&o), details.max_y(&o)), (6272, 7112));
    details.set_screen_max_width(65535);
    assert_eq!(details.max_x(&o), i16::MAX);
    assert_eq!(max_position(100, 200), 0);
}

#[test]
fn details_mode_update() {
    let a = Mode::new(1, 1920, 1080);
    let b = Mode::new(2, 1920, 1080);
    let c = Mode::new(3, 1280, 720);
    assert_eq!(mode_update(Some(a), Some(c), true), Some(Update::Resolution));
    assert_eq!(mode_update(Some(a), Some(b), true), Some(Update::Refresh));
    assert_eq!(mode_update(Some(a), Some(b), false), None);
    assert_eq!(mode_update(None, Some(b), true), None);
    assert_eq!(mode_update(Some(a), None, true), None);
}

#[test]
fn details_select_rotation_and_reflection() {
    let mut o = output(1, true, [0, 0]);
    assert!(!select_rotation(&mut o, Rotation::Normal));
    assert!(select_rotation(&mut o, Rotation::Right));
    assert_eq!((o.width(), o.height()), (1080, 1920));
    assert!(!select_reflection(&mut o, Reflection::Normal));
    assert!(select_reflection(&mut o, Reflection::Both));
    assert_eq!(o.reflection(), Reflection::Both);
}

#[test]
fn details_check_primary_needs_enabled() {
    let mut on = output(1, true, [0, 0]);
    check_primary(&mut on, true);
    assert!(on.primary());
    check_primary(&mut on, false);
    assert!(!on.primary());
    let mut off = output(2, false, [0, 0]);
    check_primary(&mut off, true);
    assert!(!off.primary());
}

#[test]
fn details_move_output() {
    let mut o = output(1, true, [10, 20]);
    assert!(!move_output(&mut o, Axis::X, 10));
    assert!(move_output(&mut o, Axis::X, 30));
    assert!(move_output(&mut o, Axis::Y, -5));
    assert_eq!((o.x(), o.y()), (30, -5));
    assert_eq!(usize::from(Axis::X), 0);
    assert_eq!(usize::from(Axis::Y), 1);
}

#[test]
fn details_child_visibility() {
    let on = output(1, true, [0, 0]);
    let off = output(2, false, [0, 0]);
    assert!(child_visible(Some(&on), false));
    assert!(child_visible(Some(&off), true));
    assert!(!child_visible(Some(&off), false));
    assert!(!child_visible(None, true));
}

#[test]
fn grid_positions_next_to() {
    assert_eq!(get_pos_next_to(3, 4, DragPosition::Left), (2, 4));
    assert_eq!(get_pos_next_to(3, 4, DragPosition::Right), (4, 4));
    assert_eq!(get_pos_next_to(3, 4, DragPosition::Top), (3, 3));
    assert_eq!(get_pos_next_to(3, 4, DragPosition::Bottom), (3, 5));
    assert_eq!(get_pos_next_to(3, 4, DragPosition::Swap), (3, 4));
}

#[test]
fn alignment_cycles() {
    assert_eq!(next_alignment(Align::Start), Align::Center);
    assert_eq!(next_alignment(Align::Center), Align::End);
    assert_eq!(next_alignment(Align::End), Align::Start);
    assert_eq!(next_alignment(Align::Fill), Align::Center);
    assert_eq!(next_alignment(Align::Baseline), Align::Center);
    let mut a = Align::End;
    for _ in 0..3 {
        a = next_alignment(a);
    }
    assert_eq!(a, Align::End);
}

#[test]
fn split_and_join_outputs() {
    let all = list(&[(1, true), (2, false), (3, true), (4, false)]);
    let (enabled, disabled) = split_by_enabled(all);
    assert_eq!(ids(&enabled), vec![1, 3]);
    assert_eq!(ids(&disabled), vec![2, 4]);
    let joined = join_outputs(enabled, disabled);
    assert_eq!(ids(&joined), vec![1, 3, 2, 4]);
}

#[test]
fn selection_transfer_between_areas() {
    let on = output(1, true, [0, 0]);
    let off = output(1, false, [0, 0]);
    assert_eq!(selection_transfer(&on, &off), SelectionTransfer::ToDisabled);
    assert_eq!(selection_transfer(&off, &on), SelectionTransfer::ToEnabled);
    assert_eq!(selection_transfer(&on, &on), SelectionTransfer::Keep);
    assert_eq!(selection_transfer(&off, &off), SelectionTransfer::Keep);
}

#[test]
fn details_switch_enabled() {
    let mut o = output(1, false, [5, 5]);
    assert_eq!(switch_enabled(&mut o, true), Update::Enabled);
    assert!(o.enabled());
    assert_eq!((o.x(), o.y(), o.width(), o.height()), (-1, -1, 1920, 1080));
    o.set_primary(true);
    assert_eq!(switch_enabled(&mut o, false), Update::Disabled);
    assert!(!o.enabled());
    assert!(!o.primary());
    assert_eq!((o.x(), o.y(), o.width(), o.height()), (0, 0, 0, 0));
}

#[test]
fn delete_key_acts_on_selection() {
    assert_eq!(delete_key_target(Some(3), Some(4)), Some((3, Update::Disabled)));
    assert_eq!(delete_key_target(None, Some(4)), Some((4, Update::Enabled)));
    assert_eq!(delete_key_target(None, None), None);
}

#[test]
fn handle_position_toggles() {
    assert_eq!(toggle_handle_position(300, 800, 100), (800, 300));
    assert_eq!(toggle_handle_position(800, 800, 300), (300, 300));
}

#[test]
fn revert_countdown() {
    let mut shown = vec![15u8];
    while let Some(next) = countdown_tick(*shown.last().unwrap()) {
        shown.push(next);
    }
    assert_eq!(shown, (1..=15).rev().collect::<Vec<u8>>());
    assert_eq!(countdown_tick(0), None);
}

#[test]
fn after_apply_decisions() {
    assert_eq!(after_apply(true, 15), AfterApply::Confirm { countdown: Some(15) });
    assert_eq!(after_apply(true, 0), AfterApply::Confirm { countdown: None });
    assert_eq!(after_apply(false, 15), AfterApply::RevertAfterFailure);
    assert_eq!(apply_actions(true), vec![ApplyAction::RunApplyHook, ApplyAction::ShowConfirm]);
    assert_eq!(
        apply_actions(false),
        vec![ApplyAction::Revert, ApplyAction::RunRevertHook, ApplyAction::ShowFailure]
    );
}

#[test]
fn confirm_steps() {
    let closing = vec![ApplyAction::Revert, ApplyAction::RunRevertHook];
    assert_eq!(confirm_step(ConfirmEvent::Keep, 3), (ConfirmStep::Done, vec![]));
    assert_eq!(confirm_step(ConfirmEvent::Revert, 3), (ConfirmStep::Revert, closing.clone()));
    assert_eq!(confirm_step(ConfirmEvent::Tick, 3), (ConfirmStep::Countdown(2), vec![]));
    assert_eq!(confirm_step(ConfirmEvent::Tick, 1), (ConfirmStep::Revert, closing));
    let mut left = 15u8;
    let mut ticks = 0;
    while let (ConfirmStep::Countdown(n), _) = confirm_step(ConfirmEvent::Tick, left) {
        left = n;
        ticks += 1;
    }
    assert_eq!(ticks, 14);
}
