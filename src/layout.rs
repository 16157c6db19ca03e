use vstd::prelude::*;

verus! {

/// Pixel geometry of one physical monitor inside the virtual screen.
#[derive(Clone, Copy, Debug, PartialEq, Eq, Structural)]
pub struct Monitor {
    pub x: u16,
    pub y: u16,
    pub width: u16,
    pub height: u16,
}

/// An exact quotient `num / den`, as handed to the GPU once divided out.
///
/// A zero `den` is kept as it is: dividing it out gives what a float division
/// by zero gives.
#[derive(Clone, Copy, Debug, PartialEq, Eq, Structural)]
pub struct Fraction {
    pub num: i32,
    pub den: u32,
}

/// Placement of one draw instance in normalized device coordinates:
/// the bottom-left corner and the extent along each axis.
#[derive(Clone, Copy, Debug, PartialEq, Eq, Structural)]
pub struct InstanceTransform {
    pub position_x: Fraction,
    pub position_y: Fraction,
    pub size_x: Fraction,
    pub size_y: Fraction,
}

/// `x / screen_w * 2 - 1`, over the common denominator `screen_w`.
pub open spec fn spec_position_x(m: Monitor, screen_w: u16) -> Fraction {
    Fraction { num: (2 * m.x - screen_w) as i32, den: screen_w as u32 }
}

/// `1 - (y + h) / screen_h * 2`, over the common denominator `screen_h`.
pub open spec fn spec_position_y(m: Monitor, screen_h: u16) -> Fraction {
    Fraction { num: (screen_h - 2 * (m.y + m.height)) as i32, den: screen_h as u32 }
}

/// `extent / screen * 2`.
pub open spec fn spec_extent(extent: u16, screen: u16) -> Fraction {
    Fraction { num: (2 * extent) as i32, den: screen as u32 }
}

pub open spec fn spec_transform(m: Monitor, screen_w: u16, screen_h: u16) -> InstanceTransform {
    InstanceTransform {
        position_x: spec_position_x(m, screen_w),
        position_y: spec_position_y(m, screen_h),
        size_x: spec_extent(m.width, screen_w),
        size_y: spec_extent(m.height, screen_h),
    }
}

/// The transforms of a whole monitor list, one per monitor, in order.
pub open spec fn spec_layout(monitors: Seq<Monitor>, screen_w: u16, screen_h: u16) -> Seq<InstanceTransform> {
    monitors.map_values(|m: Monitor| spec_transform(m, screen_w, screen_h))
}

/// Transform of a single monitor.
pub fn instance_transform(m: Monitor, screen_w: u16, screen_h: u16) -> (r: InstanceTransform)
    ensures
        r == spec_transform(m, screen_w, screen_h),
{
    let w = screen_w as i32;
    let h = screen_h as i32;
    InstanceTransform {
        position_x: Fraction { num: 2 * (m.x as i32) - w, den: screen_w as u32 },
        position_y: Fraction { num: h - 2 * ((m.y as i32) + (m.height as i32)), den: screen_h as u32 },
        size_x: Fraction { num: 2 * (m.width as i32), den: screen_w as u32 },
        size_y: Fraction { num: 2 * (m.height as i32), den: screen_h as u32 },
    }
}

/// One instance transform per monitor, in the monitors' order.
pub fn monitor_layout(monitors: &[Monitor], screen_w: u16, screen_h: u16) -> (r: Vec<InstanceTransform>)
    ensures
        r@ == spec_layout(monitors@, screen_w, screen_h),
{
    let mut out: Vec<InstanceTransform> = Vec::new();
    let mut i: usize = 0;
    while i < monitors.len()
        invariant
            i <= monitors@.len(),
            out@ == spec_layout(monitors@.subrange(0, i as int), screen_w, screen_h),
        decreases monitors@.len() - i,
    {
        out.push(instance_transform(monitors[i], screen_w, screen_h));
        proof {
            assert(monitors@.subrange(0, i + 1) == monitors@.subrange(0, i as int).push(monitors@[i as int]));
        }
        i += 1;
    }
    proof {
        assert(monitors@.subrange(0, monitors@.len() as int) == monitors@);
    }
    out
}

/// The layout is a function of its inputs alone: equal inputs give equal
/// outputs, the i-th transform belongs to the i-th monitor, and no monitors
/// give no transforms.
pub proof fn lemma_layout_deterministic(
    a: Seq<Monitor>,
    b: Seq<Monitor>,
    screen_w: u16,
    screen_h: u16,
)
    ensures
        a == b ==> spec_layout(a, screen_w, screen_h) == spec_layout(b, screen_w, screen_h),
        spec_layout(a, screen_w, screen_h).len() == a.len(),
        forall|i: int| 0 <= i < a.len() ==> #[trigger] spec_layout(a, screen_w, screen_h)[i]
            == spec_transform(a[i], screen_w, screen_h),
        a.len() == 0 ==> spec_layout(a, screen_w, screen_h).len() == 0,
{
}

/// Each transform derives from its own monitor alone: reordering the monitors
/// reorders the transforms the same way, and the i-th transform of the
/// reordered list is the `perm[i]`-th of the original one.
pub proof fn lemma_layout_reorder(
    monitors: Seq<Monitor>,
    perm: Seq<int>,
    reordered: Seq<Monitor>,
    screen_w: u16,
    screen_h: u16,
)
    requires
        perm.len() == monitors.len(),
        reordered.len() == monitors.len(),
        forall|i: int| 0 <= i < perm.len() ==> 0 <= #[trigger] perm[i] < monitors.len(),
        forall|i: int| 0 <= i < perm.len() ==> #[trigger] reordered[i] == monitors[perm[i]],
    ensures
        spec_layout(reordered, screen_w, screen_h).len() == spec_layout(monitors, screen_w, screen_h).len(),
        forall|i: int| 0 <= i < perm.len() ==> #[trigger] spec_layout(reordered, screen_w, screen_h)[i]
            == spec_layout(monitors, screen_w, screen_h)[perm[i]],
{
    assert forall|i: int| 0 <= i < perm.len() implies #[trigger] spec_layout(reordered, screen_w, screen_h)[i]
        == spec_layout(monitors, screen_w, screen_h)[perm[i]] by {
        assert(reordered[i] == monitors[perm[i]]);
    }
}

} // verus!
