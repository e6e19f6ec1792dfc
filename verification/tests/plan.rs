use std::collections::HashMap;

use rrandr::enums::{Reflection, Rotation, REFLECT_X, ROTATE0, ROTATE90};
use rrandr::mode::Mode;
use rrandr::modes::Modes;
use rrandr::output::Output;
use rrandr::outputs::Outputs;
use rrandr::plan::{RandrRequest, SavedCrtc, Snapshot};
use rrandr::randr::{CrtcInfo, OutputInfo, RandrState, Scale, ScreenSize, ScreenSizeRange};

const ROOT: u32 = 0x1e0;
const UNIT: Scale = Scale { matrix11: 65536, matrix22: 65536 };

fn crtc(x: i16, y: i16, width: u16, height: u16, mode: u32, outputs: Vec<u32>, possible: Vec<u32>) -> CrtcInfo {
    CrtcInfo { x, y, width, height, mode, rotation: ROTATE0, rotations: 63, outputs, possible }
}

fn output_info(crtc: u32, modes: Vec<u32>, name: &str) -> OutputInfo {
    OutputInfo {
        crtc,
        mm_width: 600,
        mm_height: 340,
        connected: true,
        crtcs: vec![1, 2],
        modes,
        name: name.as_bytes().to_vec(),
    }
}

/// Output 100 on CRTC 1 with mode 10; output 101 without a CRTC; CRTC 2 is free.
fn state() -> RandrState {
    let mut crtcs = HashMap::new();
    crtcs.insert(1, crtc(0, 0, 1920, 1080, 10, vec![100], vec![100, 101]));
    crtcs.insert(2, crtc(0, 0, 0, 0, 0, vec![], vec![100, 101]));
    let mut outputs = HashMap::new();
    outputs.insert(100, output_info(1, vec![10, 11], "DP-1"));
    outputs.insert(101, output_info(0, vec![11, 12], "HDMI-1"));
    let mut modes = HashMap::new();
    modes.insert(10, Mode::new(10, 1920, 1080));
    modes.insert(11, Mode::new(11, 1280, 1024));
    modes.insert(12, Mode::new(12, 800, 600));
    let mut transforms = HashMap::new();
    transforms.insert(1, UNIT);
    transforms.insert(2, UNIT);
    RandrState {
        root: ROOT,
        screen_size: ScreenSize { width: 1920, height: 1080, mwidth: 508, mheight: 285 },
        screen_size_range: ScreenSizeRange { min_width: 320, min_height: 200, max_width: 8192, max_height: 8192 },
        primary: 100,
        crtcs,
        outputs,
        modes,
        transforms,
        edids: HashMap::new(),
    }
}

fn layout_output(id: u32, enabled: bool, pos: [i16; 2], mode: Option<Mode>, rotation: Rotation, primary: bool) -> Output {
    let mut modes = Modes::new();
    modes.append(&Mode::new(10, 1920, 1080));
    modes.append(&Mode::new(11, 1280, 1024));
    Output::new(
        id,
        format!("OUT-{id}"),
        None,
        enabled,
        primary,
        pos,
        mode,
        modes,
        rotation,
        Reflection::Normal,
        [0, 0],
        [600, 340],
    )
}

fn two_enabled(rotation_of_second: Rotation) -> Outputs {
    let mut outputs = Outputs::new();
    outputs.append(layout_output(100, true, [0, 0], Some(Mode::new(10, 1920, 1080)), Rotation::Normal, false));
    outputs.append(layout_output(101, true, [1920, 0], Some(Mode::new(11, 1280, 1024)), rotation_of_second, true));
    outputs
}

#[test]
fn apply_plan_extends_layout() {
    let s = state();
    let outputs = two_enabled(Rotation::Normal);
    let screen = ScreenSize { width: 3200, height: 1080, mwidth: 847, mheight: 286 };
    let plan = s.apply_plan(&outputs, screen, &vec![UNIT, UNIT]);
    assert!(plan.complete);
    assert_eq!(
        plan.requests,
        vec![
            RandrRequest::SetScreenSize { window: ROOT, size: screen },
            RandrRequest::SetCrtcTransform { crtc: 1, scale: UNIT },
            RandrRequest::SetCrtcConfig { crtc: 1, x: 0, y: 0, mode: 10, rotation: ROTATE0, output: 100 },
            RandrRequest::SetCrtcTransform { crtc: 2, scale: UNIT },
            RandrRequest::SetCrtcConfig { crtc: 2, x: 1920, y: 0, mode: 11, rotation: ROTATE0, output: 101 },
            RandrRequest::SetPrimary { window: ROOT, output: 101 },
        ]
    );
}

#[test]
fn apply_plan_same_size_disables_removed_output() {
    let s = state();
    let mut outputs = Outputs::new();
    outputs.append(layout_output(100, false, [0, 0], None, Rotation::Normal, false));
    outputs.append(layout_output(101, true, [0, 0], Some(Mode::new(11, 1280, 1024)), Rotation::Normal, false));
    let screen = ScreenSize { width: 1920, height: 1080, mwidth: 508, mheight: 285 };
    let plan = s.apply_plan(&outputs, screen, &vec![UNIT, UNIT]);
    assert!(plan.complete);
    assert_eq!(
        plan.requests,
        vec![
            RandrRequest::DisableCrtc { crtc: 1 },
            RandrRequest::SetCrtcTransform { crtc: 2, scale: UNIT },
            RandrRequest::SetCrtcConfig { crtc: 2, x: 0, y: 0, mode: 11, rotation: ROTATE0, output: 101 },
            RandrRequest::SetPrimary { window: ROOT, output: 0 },
        ]
    );
}

#[test]
fn apply_plan_stops_without_free_crtc() {
    let mut s = state();
    s.crtcs.get_mut(&2).unwrap().rotations = ROTATE0;
    let outputs = two_enabled(Rotation::Left);
    let screen = ScreenSize { width: 2944, height: 1280, mwidth: 0, mheight: 0 };
    let plan = s.apply_plan(&outputs, screen, &vec![UNIT, UNIT]);
    assert!(!plan.complete);
    assert_eq!(
        plan.requests,
        vec![
            RandrRequest::SetScreenSize { window: ROOT, size: screen },
            RandrRequest::SetCrtcTransform { crtc: 1, scale: UNIT },
            RandrRequest::SetCrtcConfig { crtc: 1, x: 0, y: 0, mode: 10, rotation: ROTATE0, output: 100 },
        ]
    );
}

#[test]
fn apply_plan_stops_at_refused_config() {
    let mut s = state();
    s.crtcs.get_mut(&1).unwrap().possible = vec![101];
    let outputs = two_enabled(Rotation::Normal);
    let screen = ScreenSize { width: 1920, height: 1080, mwidth: 508, mheight: 285 };
    let plan = s.apply_plan(&outputs, screen, &vec![UNIT, UNIT]);
    assert!(!plan.complete);
    assert_eq!(plan.requests, vec![RandrRequest::SetCrtcTransform { crtc: 1, scale: UNIT }]);
}

#[test]
fn apply_plan_disables_scaled_crtc_and_sends_scale() {
    let mut s = state();
    s.transforms.insert(1, Scale { matrix11: 131072, matrix22: 131072 });
    let mut outputs = Outputs::new();
    let mut o = layout_output(100, true, [0, 0], Some(Mode::new(10, 1920, 1080)), Rotation::Left, false);
    o.set_reflection(Reflection::Horizontal);
    outputs.append(o);
    let screen = ScreenSize { width: 1080, height: 1920, mwidth: 340, mheight: 600 };
    let half = Scale { matrix11: 32768, matrix22: 32768 };
    let plan = s.apply_plan(&outputs, screen, &vec![half]);
    assert!(plan.complete);
    assert_eq!(
        plan.requests,
        vec![
            RandrRequest::DisableCrtc { crtc: 1 },
            RandrRequest::SetScreenSize { window: ROOT, size: screen },
            RandrRequest::SetCrtcTransform { crtc: 1, scale: half },
            RandrRequest::SetCrtcConfig { crtc: 1, x: 0, y: 0, mode: 10, rotation: ROTATE90 | REFLECT_X, output: 100 },
            RandrRequest::SetPrimary { window: ROOT, output: 0 },
        ]
    );
}

#[test]
fn disable_all_requests_covers_every_crtc() {
    let s = state();
    let mut crtcs: Vec<u32> = s
        .disable_all_requests()
        .into_iter()
        .map(|r| match r {
            RandrRequest::DisableCrtc { crtc } => crtc,
            other => panic!("unexpected request {other:?}"),
        })
        .collect();
    crtcs.sort();
    assert_eq!(crtcs, vec![1, 2]);
}

#[test]
fn revert_plan_restores_snapshot() {
    let s = state();
    let saved_size = ScreenSize { width: 1920, height: 1080, mwidth: 508, mheight: 285 };
    let snapshot = Snapshot {
        root: ROOT,
        screen_size: saved_size,
        crtcs: vec![
            SavedCrtc { id: 1, info: crtc(0, 0, 1920, 1080, 10, vec![100], vec![100, 101]), transform: UNIT },
            SavedCrtc { id: 2, info: crtc(0, 0, 0, 0, 0, vec![], vec![100, 101]), transform: UNIT },
        ],
    };
    let requests = s.revert_plan(&snapshot);
    assert_eq!(requests.len(), 5);
    let mut disabled: Vec<RandrRequest> = requests[..2].to_vec();
    disabled.sort_by_key(|r| match r {
        RandrRequest::DisableCrtc { crtc } => *crtc,
        _ => u32::MAX,
    });
    assert_eq!(disabled, vec![RandrRequest::DisableCrtc { crtc: 1 }, RandrRequest::DisableCrtc { crtc: 2 }]);
    assert_eq!(
        requests[2..].to_vec(),
        vec![
            RandrRequest::SetScreenSize { window: ROOT, size: saved_size },
            RandrRequest::SetCrtcTransform { crtc: 1, scale: UNIT },
            RandrRequest::SetCrtcConfig { crtc: 1, x: 0, y: 0, mode: 10, rotation: ROTATE0, output: 100 },
        ]
    );
}

#[test]
fn revert_plan_replaces_vanished_mode() {
    let s = state();
    let snapshot = Snapshot {
        root: ROOT,
        screen_size: s.screen_size,
        crtcs: vec![SavedCrtc { id: 2, info: crtc(1920, 0, 1280, 1024, 77, vec![101], vec![100, 101]), transform: UNIT }],
    };
    let requests = s.revert_plan(&snapshot);
    assert_eq!(
        requests[3..].to_vec(),
        vec![
            RandrRequest::SetCrtcTransform { crtc: 2, scale: UNIT },
            RandrRequest::SetCrtcConfig { crtc: 2, x: 1920, y: 0, mode: 11, rotation: ROTATE0, output: 101 },
        ]
    );
}

#[test]
fn revert_plan_skips_refused_config() {
    let mut s = state();
    s.crtcs.get_mut(&2).unwrap().possible = vec![100];
    let snapshot = Snapshot {
        root: ROOT,
        screen_size: s.screen_size,
        crtcs: vec![SavedCrtc { id: 2, info: crtc(0, 0, 800, 600, 12, vec![101], vec![100, 101]), transform: UNIT }],
    };
    let requests = s.revert_plan(&snapshot);
    assert_eq!(requests[3..].to_vec(), vec![RandrRequest::SetCrtcTransform { crtc: 2, scale: UNIT }]);
}
