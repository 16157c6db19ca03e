use xbg::layout::{instance_transform, monitor_layout, Fraction, InstanceTransform, Monitor};

fn value(f: Fraction) -> f32 {
    f.num as f32 / f.den as f32
}

fn values(t: &InstanceTransform) -> [f32; 4] {
    [value(t.position_x), value(t.position_y), value(t.size_x), value(t.size_y)]
}

#[test]
fn single_monitor_fills_clip_space() {
    let m = Monitor { x: 0, y: 0, width: 1920, height: 1080 };
    let out = monitor_layout(&[m], 1920, 1080);
    assert_eq!(out.len(), 1);
    assert_eq!(values(&out[0]), [-1.0, -1.0, 2.0, 2.0]);
    assert_eq!(out[0].position_x, Fraction { num: -1920, den: 1920 });
    assert_eq!(out[0].position_y, Fraction { num: -1080, den: 1080 });
    assert_eq!(out[0].size_x, Fraction { num: 3840, den: 1920 });
    assert_eq!(out[0].size_y, Fraction { num: 2160, den: 1080 });
}

#[test]
fn right_monitor_of_two() {
    let m = Monitor { x: 1920, y: 0, width: 1920, height: 1080 };
    let out = monitor_layout(&[m], 3840, 1080);
    assert_eq!(out.len(), 1);
    let v = values(&out[0]);
    assert_eq!(v[0], 0.0);
    assert_eq!(v[1], -1.0);
    assert_eq!(v[2], 1.0);
    assert_eq!(v[3], 2.0);
}

#[test]
fn layout_keeps_order_and_is_repeatable() {
    let left = Monitor { x: 0, y: 0, width: 1920, height: 1080 };
    let right = Monitor { x: 1920, y: 0, width: 1920, height: 1080 };
    let a = monitor_layout(&[left, right], 3840, 1080);
    let b = monitor_layout(&[left, right], 3840, 1080);
    assert_eq!(a, b);
    assert_eq!(a[0], instance_transform(left, 3840, 1080));
    assert_eq!(a[1], instance_transform(right, 3840, 1080));
    assert_eq!(values(&a[0])[0], -1.0);
    assert_eq!(values(&a[1])[0], 0.0);
}

#[test]
fn empty_layout() {
    assert!(monitor_layout(&[], 1920, 1080).is_empty());
}

#[test]
fn vertical_position_counts_from_the_bottom() {
    let m = Monitor { x: 0, y: 540, width: 960, height: 540 };
    let t = instance_transform(m, 1920, 1080);
    assert_eq!(t.position_y, Fraction { num: 1080 - 2 * 1080, den: 1080 });
    assert_eq!(values(&t), [-1.0, -1.0, 1.0, 1.0]);
}

#[test]
fn largest_geometry_does_not_overflow() {
    let m = Monitor { x: 65535, y: 65535, width: 65535, height: 65535 };
    let t = instance_transform(m, 65535, 65535);
    assert_eq!(t.position_x, Fraction { num: 65535, den: 65535 });
    assert_eq!(t.position_y, Fraction { num: 65535 - 4 * 65535, den: 65535 });
    assert_eq!(t.size_x, Fraction { num: 131070, den: 65535 });
}

#[test]
fn reordered_monitors_reorder_transforms() {
    let left = Monitor { x: 0, y: 0, width: 1920, height: 1080 };
    let right = Monitor { x: 1920, y: 0, width: 1920, height: 1080 };
    let a = monitor_layout(&[left, right], 3840, 1080);
    let b = monitor_layout(&[right, left], 3840, 1080);
    assert_eq!(b, vec![a[1], a[0]]);
}
