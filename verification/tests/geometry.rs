use rrandr::g_math::{OutputNode, OverlapDebugInfo, Rect as GRect};
use rrandr::math::{saturating_add_i16, Point, Rect};

fn parts(r: &Rect) -> (i16, i16, u16, u16) {
    (r.x(), r.y(), r.width(), r.height())
}

fn node(name: &str, x: i32, y: i32, width: u32, height: u32) -> OutputNode {
    OutputNode { name: name.to_owned(), rect: GRect { x, y, width, height } }
}

#[test]
fn point_new_keeps_coordinates() {
    let p = Point::new(-3, 7);
    assert_eq!(p, Point { x: -3, y: 7 });
}

#[test]
fn rect_getters() {
    let r = Rect::new(-10, 20, 300, 400);
    assert_eq!(parts(&r), (-10, 20, 300, 400));
}

#[test]
fn rect_center_rounds_half_sizes_down() {
    let r = Rect::new(10, 20, 101, 51);
    assert_eq!(r.center(), Point { x: 60, y: 45 });
}

#[test]
fn rect_contains_includes_borders() {
    let r = Rect::new(0, 0, 10, 10);
    assert!(r.contains(0, 0));
    assert!(r.contains(10, 10));
    assert!(r.contains(5, 3));
    assert!(!r.contains(11, 5));
    assert!(!r.contains(5, -1));
}

#[test]
fn rect_union_covers_both() {
    let a = Rect::new(0, 0, 1920, 1080);
    let b = Rect::new(1920, 0, 1280, 1024);
    assert_eq!(parts(&a.union(&b)), (0, 0, 3200, 1080));
}

#[test]
fn rect_union_is_commutative_on_values() {
    let a = Rect::new(-5, 10, 20, 30);
    let b = Rect::new(3, -7, 40, 5);
    assert_eq!(parts(&a.union(&b)), parts(&b.union(&a)));
    assert_eq!(parts(&a.union(&b)), (-5, -7, 48, 47));
}

#[test]
fn rect_union_with_itself() {
    let a = Rect::new(4, 5, 6, 7);
    assert_eq!(parts(&a.union(&a)), (4, 5, 6, 7));
}

#[test]
fn rect_intersect_overlap() {
    let a = Rect::new(0, 0, 100, 100);
    let b = Rect::new(50, 60, 100, 100);
    let i = a.intersect(&b).expect("the rectangles overlap");
    assert_eq!(parts(&i), (50, 60, 50, 40));
    let j = b.intersect(&a).expect("the rectangles overlap");
    assert_eq!(parts(&j), (50, 60, 50, 40));
}

#[test]
fn rect_intersect_touching_is_none() {
    let a = Rect::new(0, 0, 100, 100);
    let b = Rect::new(100, 0, 100, 100);
    assert!(a.intersect(&b).is_none());
    let c = Rect::new(0, 100, 10, 10);
    assert!(a.intersect(&c).is_none());
}

#[test]
fn rect_translate_saturates() {
    let mut r = Rect::new(100, -100, 10, 10);
    r.translate(5, -7);
    assert_eq!(parts(&r), (105, -107, 10, 10));
    let mut s = Rect::new(32000, -32000, 1, 1);
    s.translate(1000, -1000);
    assert_eq!(parts(&s), (i16::MAX, i16::MIN, 1, 1));
}

#[test]
fn saturating_add_matches_std() {
    for (a, b) in [(1i16, 2i16), (i16::MAX, 1), (i16::MIN, -1), (-300, 200), (30000, 30000)] {
        assert_eq!(saturating_add_i16(a, b), a.saturating_add(b));
    }
}

#[test]
fn rect_bounds_of_none_is_default() {
    let b = Rect::bounds(Vec::new());
    assert_eq!(parts(&b), (0, 0, 0, 0));
    assert_eq!(parts(&Rect::default()), (0, 0, 0, 0));
}

#[test]
fn rect_bounds_of_one_is_itself() {
    let b = Rect::bounds(vec![Rect::new(3, 4, 5, 6)]);
    assert_eq!(parts(&b), (3, 4, 5, 6));
}

#[test]
fn rect_bounds_of_layout() {
    let rects = vec![
        Rect::new(0, 0, 1920, 1080),
        Rect::new(1920, 0, 2560, 1440),
        Rect::new(-1280, 200, 1280, 1024),
    ];
    let b = Rect::bounds(rects);
    assert_eq!(parts(&b), (-1280, 0, 5760, 1440));
    assert!(b.contains(-1280, 1224));
    assert!(b.contains(4480, 1440));
}

#[test]
fn g_rect_intersects_overlap() {
    let a = GRect { x: 0, y: 0, width: 10, height: 10 };
    let b = GRect { x: 5, y: 5, width: 10, height: 10 };
    assert!(a.intersects(&b));
    assert!(b.intersects(&a));
}

#[test]
fn g_rect_intersects_touching_or_empty() {
    let a = GRect { x: 0, y: 0, width: 10, height: 10 };
    let b = GRect { x: 10, y: 0, width: 10, height: 10 };
    assert!(!a.intersects(&b));
    let e = GRect { x: 2, y: 2, width: 0, height: 5 };
    assert!(!a.intersects(&e));
    assert!(!e.intersects(&a));
}

#[test]
fn g_rect_intersection_value() {
    let a = GRect { x: 0, y: 0, width: 10, height: 10 };
    let b = GRect { x: 4, y: -2, width: 10, height: 5 };
    let i = a._intersection(&b).expect("overlap");
    assert_eq!((i.x, i.y, i.width, i.height), (4, 0, 6, 3));
    assert!(a._intersection(&GRect { x: 20, y: 20, width: 1, height: 1 }).is_none());
}

#[test]
fn g_rect_union_value() {
    let a = GRect { x: 0, y: 0, width: 10, height: 10 };
    let b = GRect { x: 20, y: -5, width: 5, height: 5 };
    let u = a.union(&b);
    assert_eq!((u.x, u.y, u.width, u.height), (0, -5, 25, 15));
}

#[test]
fn g_rect_union_with_empty_is_other() {
    let a = GRect { x: 1, y: 2, width: 0, height: 10 };
    let b = GRect { x: 3, y: 4, width: 5, height: 6 };
    let u = a.union(&b);
    assert_eq!((u.x, u.y, u.width, u.height), (3, 4, 5, 6));
    let v = b.union(&a);
    assert_eq!((v.x, v.y, v.width, v.height), (3, 4, 5, 6));
}

#[test]
fn g_rect_default_is_empty() {
    let d = GRect::default();
    assert_eq!((d.x, d.y, d.width, d.height), (0, 0, 0, 0));
}

#[test]
fn output_node_overlap() {
    let n = node("DP-1", 0, 0, 100, 100);
    let others = vec![node("HDMI-1", 100, 0, 100, 100), node("DP-2", 50, 50, 100, 100)];
    assert!(n.has_overlap(&others));
    let first = n._get_fist_overlap(&others).expect("DP-2 overlaps");
    assert_eq!((first.x, first.y, first.width, first.height), (50, 50, 50, 50));
}

#[test]
fn output_node_no_overlap() {
    let n = node("DP-1", 0, 0, 100, 100);
    let others = vec![node("HDMI-1", 100, 0, 100, 100), node("DP-2", 0, 100, 100, 100)];
    assert!(!n.has_overlap(&others));
    assert!(n._get_fist_overlap(&others).is_none());
    assert!(!n.has_overlap(&Vec::new()));
}

#[test]
fn overlap_debug_info_starts_empty() {
    let info = OverlapDebugInfo::new();
    assert!(info.step_nodes.is_empty());
}
