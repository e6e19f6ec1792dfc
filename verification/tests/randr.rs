use std::collections::HashMap;

use rrandr::enums::{Reflection, Rotation, REFLECT_X, REFLECT_Y, ROTATE0, ROTATE180, ROTATE270, ROTATE90};
use rrandr::mode::Mode;
use rrandr::modes::Modes;
use rrandr::output::Output;
use rrandr::outputs::Outputs;
use rrandr::randr::{
    get_monitor_name, has_scale, layout_fits_check, retain_without, rotated_dims, vec_contains, version_supported,
    CrtcChangeOutcome, CrtcConfigError, CrtcInfo, OutputChangeOutcome, OutputInfo, RandrState, Scale, ScreenSize,
    ScreenSizeRange,
};
use rrandr::xrandr::{gen_xrandr_command, XrandrNumbers};

const ALL_ROTATIONS: u16 = 1 | 2 | 4 | 8 | 16 | 32;

fn crtc(x: i16, y: i16, width: u16, height: u16, mode: u32, outputs: Vec<u32>, possible: Vec<u32>) -> CrtcInfo {
    CrtcInfo { x, y, width, height, mode, rotation: ROTATE0, rotations: ALL_ROTATIONS, outputs, possible }
}

fn output_info(crtc: u32, crtcs: Vec<u32>, modes: Vec<u32>, name: &str) -> OutputInfo {
    OutputInfo {
        crtc,
        mm_width: 600,
        mm_height: 340,
        connected: true,
        crtcs,
        modes,
        name: name.as_bytes().to_vec(),
    }
}

/// Two connected outputs: 100 on CRTC 1 with mode 10, 101 without a CRTC; CRTC 2 is free.
fn state() -> RandrState {
    let mut crtcs = HashMap::new();
    crtcs.insert(1, crtc(0, 0, 1920, 1080, 10, vec![100], vec![100, 101]));
    crtcs.insert(2, crtc(0, 0, 0, 0, 0, vec![], vec![100, 101]));
    let mut outputs = HashMap::new();
    outputs.insert(100, output_info(1, vec![1, 2], vec![10, 11], "DP-1"));
    outputs.insert(101, output_info(0, vec![1, 2], vec![11, 12], "HDMI-1"));
    let mut modes = HashMap::new();
    modes.insert(10, Mode::new(10, 1920, 1080));
    modes.insert(11, Mode::new(11, 1280, 1024));
    modes.insert(12, Mode::new(12, 800, 600));
    let mut transforms = HashMap::new();
    transforms.insert(1, Scale { matrix11: 65536, matrix22: 65536 });
    transforms.insert(2, Scale { matrix11: 65536, matrix22: 65536 });
    RandrState {
        root: 0x1e0,
        screen_size: ScreenSize { width: 1920, height: 1080, mwidth: 508, mheight: 285 },
        screen_size_range: ScreenSizeRange { min_width: 320, min_height: 200, max_width: 8192, max_height: 8192 },
        primary: 100,
        crtcs,
        outputs,
        modes,
        transforms,
        edids: HashMap::new(),
    }
}

fn simple_output(id: u32, name: &str, enabled: bool, pos: [i16; 2], mode: Option<Mode>, modes: &[Mode]) -> Output {
    let mut list = Modes::new();
    for m in modes {
        list.append(m);
    }
    Output::new(
        id,
        name.to_owned(),
        None,
        enabled,
        false,
        pos,
        mode,
        list,
        Rotation::Normal,
        Reflection::Normal,
        [0, 0],
        [600, 340],
    )
}

fn edid_with_name(name: &[u8; 13], at: usize) -> Vec<u8> {
    let mut edid = vec![0u8; 128];
    edid[0x12] = 1;
    edid[0x13] = 3;
    // descriptors before `at` are marked as something else than a name
    for d in [0x48usize, 0x5A, 0x6C] {
        edid[d + 3] = 0xFF;
    }
    edid[at..at + 5].copy_from_slice(&[0, 0, 0, 0xFC, 0]);
    edid[at + 5..at + 18].copy_from_slice(name);
    edid
}

#[test]
fn validate_accepts_good_config() {
    let s = state();
    assert_eq!(s.validate_crtc_config(2, 12, ROTATE0, &[101]), Ok(()));
    assert_eq!(s.validate_crtc_config(1, 0, ROTATE0, &[]), Ok(()));
    assert_eq!(s.validate_crtc_config(1, 10, ROTATE90 | REFLECT_X, &[100]), Ok(()));
}

#[test]
fn validate_multiple_outputs() {
    let s = state();
    assert_eq!(s.validate_crtc_config(1, 10, ROTATE0, &[100, 101]), Err(CrtcConfigError::MultipleOutputs));
}

#[test]
fn validate_mode_output_mismatch() {
    let s = state();
    assert_eq!(s.validate_crtc_config(1, 0, ROTATE0, &[100]), Err(CrtcConfigError::ModeOutputMismatch));
    assert_eq!(s.validate_crtc_config(1, 10, ROTATE0, &[]), Err(CrtcConfigError::ModeOutputMismatch));
}

#[test]
fn validate_invalid_rotation() {
    let s = state();
    assert_eq!(
        s.validate_crtc_config(1, 10, ROTATE0 | ROTATE90, &[100]),
        Err(CrtcConfigError::InvalidRotation)
    );
    assert_eq!(s.validate_crtc_config(1, 10, REFLECT_Y, &[100]), Err(CrtcConfigError::InvalidRotation));
}

#[test]
fn validate_unknown_crtc_mode_output() {
    let s = state();
    assert_eq!(s.validate_crtc_config(9, 10, ROTATE0, &[100]), Err(CrtcConfigError::UnknownCrtc));
    assert_eq!(s.validate_crtc_config(1, 99, ROTATE0, &[100]), Err(CrtcConfigError::UnknownMode));
    assert_eq!(s.validate_crtc_config(1, 10, ROTATE0, &[555]), Err(CrtcConfigError::UnknownOutput));
}

#[test]
fn validate_cannot_attach() {
    let mut s = state();
    s.crtcs.get_mut(&2).unwrap().possible = vec![100];
    assert_eq!(s.validate_crtc_config(2, 12, ROTATE0, &[101]), Err(CrtcConfigError::CannotAttach));
}

#[test]
fn validate_rotation_not_supported() {
    let mut s = state();
    s.crtcs.get_mut(&2).unwrap().rotations = ROTATE0;
    assert_eq!(s.validate_crtc_config(2, 12, ROTATE180, &[101]), Err(CrtcConfigError::RotationNotSupported));
}

#[test]
fn validate_mode_not_supported() {
    let s = state();
    assert_eq!(s.validate_crtc_config(2, 10, ROTATE0, &[101]), Err(CrtcConfigError::ModeNotSupported));
}

#[test]
fn valid_empty_crtc_first_free() {
    let s = state();
    assert_eq!(s.valid_empty_crtc(101, ROTATE0), Some(2));
    assert_eq!(s.valid_empty_crtc(999, ROTATE0), None);
    let mut t = state();
    t.crtcs.get_mut(&2).unwrap().rotations = ROTATE0;
    assert_eq!(t.valid_empty_crtc(101, ROTATE270), None);
}

#[test]
fn target_crtc_keeps_or_finds() {
    let s = state();
    assert_eq!(s.target_crtc(100, ROTATE0), Some(1));
    assert_eq!(s.target_crtc(101, ROTATE0), Some(2));
}

#[test]
fn target_crtc_shared_not_first() {
    let mut s = state();
    s.crtcs.get_mut(&1).unwrap().outputs = vec![101, 100];
    assert_eq!(s.target_crtc(100, ROTATE0), Some(2));
}

#[test]
fn revert_mode_choices() {
    let s = state();
    let known = crtc(0, 0, 1, 1, 10, vec![100], vec![]);
    assert_eq!(s.revert_mode(&known), 10);
    let gone = crtc(0, 0, 1, 1, 77, vec![101], vec![]);
    assert_eq!(s.revert_mode(&gone), 11);
    let empty = crtc(0, 0, 1, 1, 77, vec![], vec![]);
    assert_eq!(s.revert_mode(&empty), 0);
}

#[test]
fn screen_change_swaps_when_rotated() {
    let mut s = state();
    assert!(s.screen_change(ROTATE90, 0x1e0, 0x1e0, 1080, 1920, 285, 508));
    assert_eq!(s.screen_size, ScreenSize { width: 1920, height: 1080, mwidth: 508, mheight: 285 });
    assert!(s.screen_change(ROTATE0, 0x1e0, 0x1e0, 3840, 2160, 600, 340));
    assert_eq!(s.screen_size, ScreenSize { width: 3840, height: 2160, mwidth: 600, mheight: 340 });
}

#[test]
fn screen_change_other_window_ignored() {
    let mut s = state();
    assert!(!s.screen_change(ROTATE0, 0x1e0, 0x2, 800, 600, 1, 1));
    assert_eq!(s.screen_size.width, 1920);
}

#[test]
fn has_scale_detects_non_unit() {
    assert!(!has_scale(Scale { matrix11: 65536, matrix22: 65536 }));
    assert!(!has_scale(Scale { matrix11: 98304, matrix22: 65536 }));
    assert!(has_scale(Scale { matrix11: 131072, matrix22: 65536 }));
    assert!(has_scale(Scale { matrix11: 65536, matrix22: 32768 }));
}

#[test]
fn disable_plan_disabled_and_scaled() {
    let mut s = state();
    let modes = [Mode::new(10, 1920, 1080), Mode::new(11, 1280, 1024)];
    let mut outputs = Outputs::new();
    outputs.append(simple_output(100, "DP-1", false, [0, 0], None, &modes));
    outputs.append(simple_output(101, "HDMI-1", false, [0, 0], None, &modes));
    let screen = s.screen_size;
    assert_eq!(s.disable_plan(&outputs, &screen, false), vec![1]);
    s.transforms.insert(1, Scale { matrix11: 131072, matrix22: 131072 });
    let mut enabled = Outputs::new();
    enabled.append(simple_output(100, "DP-1", true, [0, 0], Some(modes[0]), &modes));
    assert_eq!(s.disable_plan(&enabled, &screen, false), vec![1]);
}

#[test]
fn disable_plan_screen_shrinks() {
    let s = state();
    let modes = [Mode::new(10, 1920, 1080)];
    let mut outputs = Outputs::new();
    outputs.append(simple_output(100, "DP-1", true, [0, 0], Some(modes[0]), &modes));
    let small = ScreenSize { width: 1280, height: 1024, mwidth: 0, mheight: 0 };
    assert_eq!(s.disable_plan(&outputs, &small, true), vec![1]);
    assert_eq!(s.disable_plan(&outputs, &small, false), Vec::<u32>::new());
    let big = ScreenSize { width: 3200, height: 1080, mwidth: 0, mheight: 0 };
    assert_eq!(s.disable_plan(&outputs, &big, true), Vec::<u32>::new());
}

#[test]
fn screen_size_for_two_outputs() {
    let s = state();
    let modes = [Mode::new(10, 1920, 1080), Mode::new(11, 1280, 1024)];
    let mut outputs = Outputs::new();
    outputs.append(simple_output(100, "DP-1", true, [0, 0], Some(modes[0]), &modes));
    outputs.append(simple_output(101, "HDMI-1", true, [1920, 0], Some(modes[1]), &modes));
    let size = s.screen_size_for(&outputs);
    assert_eq!(size, ScreenSize { width: 3200, height: 1080, mwidth: 0, mheight: 0 });
}

#[test]
fn screen_size_for_single_output_has_mm() {
    let s = state();
    let modes = [Mode::new(10, 1920, 1080)];
    let mut outputs = Outputs::new();
    outputs.append(simple_output(100, "DP-1", true, [0, 0], Some(modes[0]), &modes));
    outputs.append(simple_output(101, "HDMI-1", false, [0, 0], None, &modes));
    let size = s.screen_size_for(&outputs);
    assert_eq!(size, ScreenSize { width: 1920, height: 1080, mwidth: 600, mheight: 340 });
}

#[test]
fn screen_size_for_clamps_to_minimum() {
    let s = state();
    let outputs = Outputs::new();
    let size = s.screen_size_for(&outputs);
    assert_eq!(size, ScreenSize { width: 320, height: 200, mwidth: 0, mheight: 0 });
}

#[test]
fn retain_without_removes_all() {
    let mut v = vec![1, 2, 1, 3, 1];
    retain_without(&mut v, 1);
    assert_eq!(v, vec![2, 3]);
    assert!(vec_contains(&v, 3));
    assert!(!vec_contains(&v, 1));
}

#[test]
fn reassign_output_crtc_moves_lists() {
    let mut s = state();
    assert!(s.reassign_output_crtc(100, 2));
    assert_eq!(s.outputs[&100].crtc, 2);
    assert_eq!(s.crtcs[&1].outputs, Vec::<u32>::new());
    assert_eq!(s.crtcs[&2].outputs, vec![100]);
    assert!(!s.reassign_output_crtc(555, 1));
}

#[test]
fn reassign_output_crtc_to_none() {
    let mut s = state();
    assert!(s.reassign_output_crtc(100, 0));
    assert_eq!(s.outputs[&100].crtc, 0);
    assert!(s.crtcs[&1].outputs.is_empty());
}

#[test]
fn output_change_outcomes() {
    let mut s = state();
    assert_eq!(s.output_change(0x2, 100, 2, 10, true), OutputChangeOutcome::Ignored);
    assert_eq!(s.outputs[&100].crtc, 1);
    assert_eq!(s.output_change(0x1e0, 555, 2, 10, true), OutputChangeOutcome::Ignored);
    assert_eq!(s.output_change(0x1e0, 100, 2, 0, false), OutputChangeOutcome::Updated { output_modes: false });
    assert_eq!(s.outputs[&100].crtc, 2);
    assert!(!s.outputs[&100].connected);
    assert!(s.crtcs[&1].outputs.is_empty());
    assert_eq!(s.crtcs[&2].outputs, vec![100]);
    assert_eq!(s.output_change(0x1e0, 101, 1, 12, true), OutputChangeOutcome::Updated { output_modes: true });
    assert_eq!(s.crtcs[&1].outputs, vec![101]);
}

#[test]
fn set_output_modes_replaces_list() {
    let mut s = state();
    assert!(s.set_output_modes(101, vec![12]));
    assert_eq!(s.outputs[&101].modes, vec![12]);
    assert_eq!(s.outputs[&101].crtcs, vec![1, 2]);
    assert!(!s.set_output_modes(7, vec![1]));
}

#[test]
fn crtc_change_outcomes() {
    let mut s = state();
    assert_eq!(s.crtc_change(0x2, 1, 11, ROTATE90, 5, 6), CrtcChangeOutcome::UnknownWindow);
    assert_eq!(s.crtcs[&1].mode, 10);
    assert_eq!(s.crtc_change(0x1e0, 42, 11, ROTATE90, 5, 6), CrtcChangeOutcome::NewCrtc);
    assert_eq!(s.crtc_change(0x1e0, 1, 11, ROTATE90, 5, 6), CrtcChangeOutcome::Updated);
    let c = &s.crtcs[&1];
    assert_eq!((c.mode, c.rotation, c.x, c.y, c.width, c.height), (11, ROTATE90, 5, 6, 1920, 1080));
}

#[test]
fn model_output_enabled() {
    let mut s = state();
    s.crtcs.get_mut(&1).unwrap().rotation = ROTATE90 | REFLECT_Y;
    s.crtcs.get_mut(&1).unwrap().x = 10;
    let o = s.model_output(100, Some("DELL".to_owned())).expect("connected");
    assert_eq!(o.id(), 100);
    assert_eq!(o.name(), "DP-1");
    assert_eq!(o.product_name().map(|p| p.as_str()), Some("DELL"));
    assert!(o.enabled());
    assert!(o.primary());
    assert_eq!(o.mode(), Some(Mode::new(10, 1920, 1080)));
    assert_eq!(o.modes().len(), 2);
    assert_eq!((o.x(), o.y(), o.width(), o.height()), (10, 0, 1080, 1920));
    assert_eq!(o.rotation(), Rotation::Left);
    assert_eq!(o.reflection(), Reflection::Vertical);
    assert_eq!((o.mm_width(), o.mm_height()), (600, 340));
}

#[test]
fn model_output_disabled_and_disconnected() {
    let mut s = state();
    let o = s.model_output(101, None).expect("connected");
    assert!(!o.enabled());
    assert!(!o.primary());
    assert!(o.mode().is_none());
    assert_eq!(o.name(), "HDMI-1");
    s.outputs.get_mut(&101).unwrap().connected = false;
    assert!(s.model_output(101, None).is_none());
}

#[test]
fn model_output_invalid_utf8_name_is_replaced() {
    let mut s = state();
    s.outputs.get_mut(&101).unwrap().name = vec![b'D', 0xFF, b'P'];
    let o = s.model_output(101, None).expect("connected");
    assert_eq!(o.name(), "D\u{FFFD}P");
}

#[test]
fn monitor_name_from_edid() {
    let edid = edid_with_name(b"DELL U2415\n  ", 0x48);
    assert_eq!(get_monitor_name(&edid), Some("DELL U2415".to_owned()));
}

#[test]
fn monitor_name_from_later_descriptor() {
    let edid = edid_with_name(b"LG HDR 4K\n   ", 0x6C);
    assert_eq!(get_monitor_name(&edid), Some("LG HDR 4K".to_owned()));
}

#[test]
fn monitor_name_trims_unicode_white_space() {
    let mut name = [b' '; 13];
    name[..2].copy_from_slice(b"AB");
    name[2..5].copy_from_slice(&[0xE2, 0x80, 0xAF]);
    name[5] = b'\t';
    let edid = edid_with_name(&name, 0x48);
    assert_eq!(get_monitor_name(&edid), Some("AB".to_owned()));
    let mut kept = [b' '; 13];
    kept[..3].copy_from_slice(b"A-B");
    kept[3..5].copy_from_slice(&[0xC2, 0xAD]);
    let edid = edid_with_name(&kept, 0x48);
    assert_eq!(get_monitor_name(&edid), Some("A-B\u{AD}".to_owned()));
}

#[test]
fn layout_fit_checks() {
    let modes = [Mode::new(10, 1920, 1080)];
    let mut outputs = Outputs::new();
    outputs.append(simple_output(100, "DP-1", true, [0, 0], Some(modes[0]), &modes));
    outputs.append(simple_output(101, "HDMI-1", true, [1920, 0], Some(modes[0]), &modes));
    assert!(layout_fits_check(&outputs));
    let mut far = Outputs::new();
    far.append(simple_output(100, "DP-1", true, [32767, 0], Some(modes[0]), &modes));
    assert!(layout_fits_check(&far));
    far.append(simple_output(101, "HDMI-1", true, [-32768, 0], Some(modes[0]), &modes));
    assert!(!layout_fits_check(&far));
    let mut tall = Outputs::new();
    tall.append(simple_output(100, "DP-1", true, [0, 32767], Some(modes[0]), &modes));
    tall.index_mut(0).set_rotation(Rotation::Left);
    assert!(layout_fits_check(&tall));
    let mut off = Outputs::new();
    off.append(simple_output(100, "DP-1", false, [0, 0], None, &modes));
    assert!(layout_fits_check(&off));
    assert!(layout_fits_check(&Outputs::new()));
}

#[test]
fn screen_change_keeps_other_state() {
    let mut s = state();
    assert!(s.screen_change(ROTATE0, 0x1e0, 0x1e0, 800, 600, 1, 1));
    assert_eq!(s.primary, 100);
    assert_eq!(s.outputs.len(), 2);
    assert_eq!(s.crtcs.len(), 2);
    assert_eq!(s.screen_size_range.max_width, 8192);
}

#[test]
fn monitor_name_missing() {
    let mut edid = edid_with_name(b"NAME\n        ", 0x5A);
    edid[0x5A + 3] = 0xFE;
    assert_eq!(get_monitor_name(&edid), None);
    assert_eq!(get_monitor_name(&edid[..100]), None);
    let mut old = edid_with_name(b"NAME\n        ", 0x48);
    old[0x13] = 2;
    assert_eq!(get_monitor_name(&old), None);
}

#[test]
fn output_model_lists_connected_outputs() {
    let mut s = state();
    s.edids.insert(100, Some(edid_with_name(b"DELL U2415\n  ", 0x48)));
    s.edids.insert(101, None);
    s.outputs.insert(102, OutputInfo { connected: false, ..output_info(0, vec![1, 2], vec![11], "VGA-1") });
    let model = s.output_model();
    assert_eq!(model.len(), 2);
    let mut names: Vec<(u32, String, Option<String>)> = (0..model.len())
        .map(|i| {
            let o = model.index(i);
            (o.id(), o.name().clone(), o.product_name().cloned())
        })
        .collect();
    names.sort();
    assert_eq!(
        names,
        vec![
            (100, "DP-1".to_owned(), Some("DELL U2415".to_owned())),
            (101, "HDMI-1".to_owned(), None),
        ]
    );
}

#[test]
fn version_check() {
    assert!(version_supported(1, 3));
    assert!(version_supported(1, 6));
    assert!(version_supported(2, 0));
    assert!(!version_supported(1, 2));
    assert!(!version_supported(0, 9));
}

#[test]
fn rotated_dims_swap() {
    assert_eq!(rotated_dims(ROTATE90, 1920, 1080), (1080, 1920));
    assert_eq!(rotated_dims(ROTATE270 | REFLECT_X, 1920, 1080), (1080, 1920));
    assert_eq!(rotated_dims(ROTATE180, 1920, 1080), (1920, 1080));
}

#[test]
fn xrandr_command_two_outputs() {
    let modes = [Mode::new(10, 1920, 1080), Mode::new(11, 1280, 1024)];
    let mut outputs = Outputs::new();
    let mut a = simple_output(100, "DP-1", true, [0, 0], Some(modes[0]), &modes);
    a.set_primary(true);
    a.set_rotation(Rotation::Left);
    a.set_reflection(Reflection::Horizontal);
    outputs.append(a);
    outputs.append(simple_output(101, "HDMI-1", true, [-1280, 5], Some(modes[1]), &modes));
    outputs.append(simple_output(102, "VGA-1", false, [0, 0], None, &modes));
    let nums = vec![
        XrandrNumbers { rate: "60.00".to_owned(), scale: "1.00".to_owned() },
        XrandrNumbers { rate: "75.02".to_owned(), scale: "1.50x2.00".to_owned() },
        XrandrNumbers { rate: String::new(), scale: String::new() },
    ];
    let expected = "xrandr --output DP-1 --mode 1920x1080 --rate 60.00 --pos 0x0 --rotate left \
                    --reflect x --scale 1.00 --primary --dpi DP-1 \\\n       --output HDMI-1 --mode \
                    1280x1024 --rate 75.02 --pos -1280x5 --rotate normal --reflect normal --scale \
                    1.50x2.00 \\\n       --output VGA-1 --off";
    assert_eq!(gen_xrandr_command(&outputs, &nums), expected);
}

#[test]
fn xrandr_command_no_outputs() {
    assert_eq!(gen_xrandr_command(&Outputs::new(), &Vec::new()), "xrandr");
}
