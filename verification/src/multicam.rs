//! The four-camera rig: one free perspective view and three orthographic
//! axis views, tiled as a 2x2 grid into the part of the window the panels
//! leave free.
//!
//! Screen fractions are stored in thousandths, positions and sizes in
//! physical pixels.

use vstd::prelude::*;

verus! {

/// Thousandths in a whole.
pub const MILLE: u32 = 1000;

/// The largest window dimension the layout arithmetic accepts, in pixels.
pub const MAX_WINDOW: u32 = 0x100000;

/// The world axis a camera looks along; the free perspective camera looks
/// along none.
#[derive(Clone, Copy, PartialEq, Eq, Structural, Debug)]
pub enum CameraAxis {
    Free,
    X,
    Y,
    Z,
}

/// A screen position as a fraction of the window, in thousandths.
#[derive(Clone, Copy, PartialEq, Eq, Structural, Debug)]
pub struct ScreenFrac {
    pub x: u32,
    pub y: u32,
}

impl ScreenFrac {
    /// Both fractions are within the whole.
    pub open spec fn wf(self) -> bool {
        self.x <= MILLE && self.y <= MILLE
    }
}

/// One camera of the rig.
pub struct Multicam {
    pub name: String,
    /// Which cell of the 2x2 grid this camera renders to.
    pub screen_pos: (u32, u32),
    pub id: u32,
    pub axis: CameraAxis,
}

/// The axis of rig camera `idx`: the free camera first, then one
/// orthographic camera per world axis.
pub open spec fn rig_axis(idx: int) -> CameraAxis {
    if idx == 0 {
        CameraAxis::Free
    } else if idx == 1 {
        CameraAxis::X
    } else if idx == 2 {
        CameraAxis::Y
    } else {
        CameraAxis::Z
    }
}

/// Builds the rig's camera metadata from the four viewport names: cameras
/// numbered in order, laid out row-major on the 2x2 grid, the free
/// perspective camera first and one orthographic camera per axis after it.
pub fn rig(names: Vec<String>) -> (r: Vec<Multicam>)
    requires
        names@.len() == 4,
    ensures
        r@.len() == 4,
        forall|i: int| 0 <= i < 4 ==> {
            &&& (#[trigger] r@[i]).id == i
            &&& r@[i].screen_pos == ((i % 2) as u32, (i / 2) as u32)
            &&& r@[i].axis == rig_axis(i)
            &&& r@[i].name@ == names@[i]@
        },
{
    let mut r: Vec<Multicam> = Vec::new();
    let mut idx: usize = 0;
    while idx < 4
        invariant
            names@.len() == 4,
            r@.len() == idx,
            idx <= 4,
            forall|i: int| 0 <= i < idx ==> {
                &&& (#[trigger] r@[i]).id == i
                &&& r@[i].screen_pos == ((i % 2) as u32, (i / 2) as u32)
                &&& r@[i].axis == rig_axis(i)
                &&& r@[i].name@ == names@[i]@
            },
        decreases 4 - idx,
    {
        let name = names[idx].clone();
        let axis = if idx == 0 {
            CameraAxis::Free
        } else if idx == 1 {
            CameraAxis::X
        } else if idx == 2 {
            CameraAxis::Y
        } else {
            CameraAxis::Z
        };
        r.push(Multicam {
            name,
            screen_pos: ((idx % 2) as u32, (idx / 2) as u32),
            id: idx as u32,
            axis,
        });
        idx = idx + 1;
    }
    r
}

/// The state of the camera rig: the window fraction left free for the
/// viewports, and the debug toggles.
pub struct MulticamState {
    pub test_scene: bool,
    pub start: ScreenFrac,
    pub end: ScreenFrac,
    pub debug_window: bool,
    pub debug_viewport_box: bool,
    pub debug_mouseover_boxes: bool,
    pub debug_mouse_circle: bool,
    pub draw_ortho_cameras: bool,
    pub draw_perspective_cameras: bool,
}

impl MulticamState {
    /// The viewport region is ordered and within the window.
    pub open spec fn wf(self) -> bool {
        &&& self.start.wf()
        &&& self.end.wf()
        &&& self.start.x <= self.end.x
        &&& self.start.y <= self.end.y
    }
}

impl Default for MulticamState {
    /// A centered region leaving a tenth of the window on every side. The
    /// region must not be empty, or the first frame has nothing to render to.
    fn default() -> (r: MulticamState)
        ensures
            r.start == (ScreenFrac { x: 100u32, y: 100u32 }),
            r.end == (ScreenFrac { x: 900u32, y: 900u32 }),
            !r.test_scene,
            !r.debug_window,
            !r.debug_viewport_box,
            !r.debug_mouseover_boxes,
            !r.debug_mouse_circle,
            !r.draw_ortho_cameras,
            r.draw_perspective_cameras,
            r.wf(),
    {
        MulticamState {
            test_scene: false,
            start: ScreenFrac { x: 100, y: 100 },
            end: ScreenFrac { x: 900, y: 900 },
            debug_viewport_box: false,
            debug_mouseover_boxes: false,
            debug_mouse_circle: false,
            debug_window: false,
            draw_ortho_cameras: false,
            draw_perspective_cameras: true,
        }
    }
}

/// A camera's viewport: a rectangle of physical pixels.
#[derive(Clone, Copy, Debug)]
pub struct ViewportRect {
    pub pos: (u32, u32),
    pub size: (u32, u32),
}

/// `frac` thousandths of `len` pixels, rounded down.
pub open spec fn scaled(frac: int, len: int) -> int {
    frac * len / 1000
}

/// The viewport of the camera at grid cell `cell` when the free region runs
/// from `start` to `end` within a `window_w` by `window_h` window: each
/// camera gets half the region in each direction, offset by its cell.
pub open spec fn camera_viewport_spec(
    start: ScreenFrac,
    end: ScreenFrac,
    window_w: int,
    window_h: int,
    cell: (u32, u32),
) -> ViewportRect {
    let region_x = scaled(start.x as int, window_w);
    let region_y = scaled(start.y as int, window_h);
    let cam_w = scaled(end.x - start.x, window_w) / 2;
    let cam_h = scaled(end.y - start.y, window_h) / 2;
    ViewportRect {
        pos: (
            (region_x + cell.0 * cam_w) as u32,
            (region_y + cell.1 * cam_h) as u32,
        ),
        size: (cam_w as u32, cam_h as u32),
    }
}

/// Computes one rig camera's viewport within the window.
pub fn camera_viewport(
    start: ScreenFrac,
    end: ScreenFrac,
    window_w: u32,
    window_h: u32,
    cell: (u32, u32),
) -> (r: ViewportRect)
    requires
        start.wf(),
        end.wf(),
        start.x <= end.x,
        start.y <= end.y,
        window_w <= MAX_WINDOW,
        window_h <= MAX_WINDOW,
        cell.0 <= 1,
        cell.1 <= 1,
    ensures
        r == camera_viewport_spec(start, end, window_w as int, window_h as int, cell),
        r.pos.0 + r.size.0 <= window_w,
        r.pos.1 + r.size.1 <= window_h,
{
    proof {
        lemma_scaled_bounds(start.x as int, window_w as int);
        lemma_scaled_bounds(start.y as int, window_h as int);
        lemma_scaled_bounds(end.x - start.x, window_w as int);
        lemma_scaled_bounds(end.y - start.y, window_h as int);
        lemma_scaled_splits(start.x as int, end.x as int, window_w as int);
        lemma_scaled_splits(start.y as int, end.y as int, window_h as int);
        assert(start.x * window_w <= 1000 * 0x100000 && start.y * window_h <= 1000 * 0x100000
            && (end.x - start.x) * window_w <= 1000 * 0x100000
            && (end.y - start.y) * window_h <= 1000 * 0x100000) by (nonlinear_arith)
            requires
                start.x <= 1000,
                start.y <= 1000,
                0 <= end.x - start.x <= 1000,
                0 <= end.y - start.y <= 1000,
                window_w <= 0x100000,
                window_h <= 0x100000,
        {}
    }
    let region_x = start.x * window_w / 1000;
    let region_y = start.y * window_h / 1000;
    let cam_w = (end.x - start.x) * window_w / 1000 / 2;
    let cam_h = (end.y - start.y) * window_h / 1000 / 2;
    let cell_x_off = if cell.0 == 0 { 0 } else { cam_w };
    let cell_y_off = if cell.1 == 0 { 0 } else { cam_h };
    proof {
        if cell.0 == 0 {
            assert(cell.0 * (cam_w as int) == 0);
        } else {
            assert(cell.0 * (cam_w as int) == cam_w as int) by (nonlinear_arith)
                requires
                    cell.0 == 1,
            {}
        }
        if cell.1 == 0 {
            assert(cell.1 * (cam_h as int) == 0);
        } else {
            assert(cell.1 * (cam_h as int) == cam_h as int) by (nonlinear_arith)
                requires
                    cell.1 == 1,
            {}
        }
    }
    ViewportRect {
        pos: (region_x + cell_x_off, region_y + cell_y_off),
        size: (cam_w, cam_h),
    }
}

/// A scaled fraction of a window length stays within the window.
proof fn lemma_scaled_bounds(frac: int, len: int)
    requires
        0 <= frac <= 1000,
        0 <= len,
    ensures
        0 <= scaled(frac, len) <= len,
{
    assert(0 <= frac * len <= 1000 * len) by (nonlinear_arith)
        requires
            0 <= frac <= 1000,
            0 <= len,
    {}
    assert(frac * len / 1000 <= 1000 * len / 1000) by {
        vstd::arithmetic::div_mod::lemma_div_is_ordered(frac * len, 1000 * len, 1000);
    }
    assert(1000 * len / 1000 == len) by {
        vstd::arithmetic::div_mod::lemma_div_multiples_vanish(len, 1000);
    }
    assert(frac * len / 1000 >= 0) by {
        vstd::arithmetic::div_mod::lemma_div_pos_is_pos(frac * len, 1000);
    }
}

/// The sum of two quotients is at most the quotient of the sum.
proof fn lemma_div_sum_le(a: int, b: int, d: int)
    requires
        0 <= a,
        0 <= b,
        0 < d,
    ensures
        a / d + b / d <= (a + b) / d,
{
    vstd::arithmetic::div_mod::lemma_fundamental_div_mod(a, d);
    vstd::arithmetic::div_mod::lemma_fundamental_div_mod(b, d);
    vstd::arithmetic::div_mod::lemma_fundamental_div_mod(a + b, d);
    vstd::arithmetic::div_mod::lemma_mod_division_less_than_divisor(a, d);
    vstd::arithmetic::div_mod::lemma_mod_division_less_than_divisor(b, d);
    vstd::arithmetic::div_mod::lemma_mod_division_less_than_divisor(a + b, d);
    assert(a / d + b / d <= (a + b) / d) by (nonlinear_arith)
        requires
            a == d * (a / d) + a % d,
            b == d * (b / d) + b % d,
            a + b == d * ((a + b) / d) + (a + b) % d,
            0 <= a % d < d,
            0 <= b % d < d,
            0 <= (a + b) % d < d,
            0 < d,
    {}
}

/// The region start plus two camera widths stays within the window when the
/// fractions are ordered: the scaled start plus the scaled extent is at most
/// the scaled end.
proof fn lemma_scaled_splits(lo: int, hi: int, len: int)
    requires
        0 <= lo <= hi <= 1000,
        0 <= len,
    ensures
        scaled(lo, len) + 2 * (scaled(hi - lo, len) / 2) <= len,
{
    lemma_scaled_bounds(hi, len);
    assert(0 <= lo * len && 0 <= (hi - lo) * len && lo * len + (hi - lo) * len == hi * len)
        by (nonlinear_arith)
        requires
            0 <= lo <= hi,
            0 <= len,
    {}
    lemma_div_sum_le(lo * len, (hi - lo) * len, 1000);
    assert(2 * (scaled(hi - lo, len) / 2) <= scaled(hi - lo, len)) by {
        vstd::arithmetic::div_mod::lemma_fundamental_div_mod(scaled(hi - lo, len), 2);
        vstd::arithmetic::div_mod::lemma_mod_division_less_than_divisor(scaled(hi - lo, len), 2);
    }
}

/// Whether a physical pixel lies in a viewport.
pub open spec fn viewport_contains_spec(vp: ViewportRect, x: int, y: int) -> bool {
    &&& vp.pos.0 <= x < vp.pos.0 + vp.size.0
    &&& vp.pos.1 <= y < vp.pos.1 + vp.size.1
}

/// Tests whether a pixel lies in a viewport.
pub fn viewport_contains(vp: &ViewportRect, x: u32, y: u32) -> (r: bool)
    requires
        vp.pos.0 + vp.size.0 <= u32::MAX,
        vp.pos.1 + vp.size.1 <= u32::MAX,
    ensures
        r == viewport_contains_spec(*vp, x as int, y as int),
{
    x >= vp.pos.0 && x < vp.pos.0 + vp.size.0 && y >= vp.pos.1 && y < vp.pos.1 + vp.size.1
}

/// The position of a pixel within the viewport that holds it.
pub fn viewport_local(vp: &ViewportRect, x: u32, y: u32) -> (r: (u32, u32))
    requires
        vp.pos.0 + vp.size.0 <= u32::MAX,
        vp.pos.1 + vp.size.1 <= u32::MAX,
        viewport_contains_spec(*vp, x as int, y as int),
    ensures
        r.0 == x - vp.pos.0,
        r.1 == y - vp.pos.1,
{
    (x - vp.pos.0, y - vp.pos.1)
}

/// Finds the first viewport holding the pixel; pointer routing gives that
/// viewport's camera the frame's mouse input.
pub fn first_viewport_containing(vps: &Vec<ViewportRect>, x: u32, y: u32) -> (r: Option<usize>)
    requires
        forall|i: int| 0 <= i < vps@.len() ==> {
            &&& (#[trigger] vps@[i]).pos.0 + vps@[i].size.0 <= u32::MAX
            &&& vps@[i].pos.1 + vps@[i].size.1 <= u32::MAX
        },
    ensures
        match r {
            Some(idx) => {
                &&& idx < vps@.len()
                &&& viewport_contains_spec(vps@[idx as int], x as int, y as int)
                &&& forall|j: int| 0 <= j < idx ==> !viewport_contains_spec(
                    vps@[j], x as int, y as int)
            },
            None => forall|j: int| 0 <= j < vps@.len() ==> !viewport_contains_spec(
                vps@[j], x as int, y as int),
        },
{
    let mut i: usize = 0;
    while i < vps.len()
        invariant
            i <= vps@.len(),
            forall|i2: int| 0 <= i2 < vps@.len() ==> {
                &&& (#[trigger] vps@[i2]).pos.0 + vps@[i2].size.0 <= u32::MAX
                &&& vps@[i2].pos.1 + vps@[i2].size.1 <= u32::MAX
            },
            forall|j: int| 0 <= j < i ==> !viewport_contains_spec(vps@[j], x as int, y as int),
        decreases vps@.len() - i,
    {
        if viewport_contains(&vps[i], x, y) {
            return Some(i);
        }
        i = i + 1;
    }
    None
}

/// Multiplying by a cell coordinate of zero or one keeps or drops the term.
proof fn lemma_cell_product(c: u32, v: int)
    requires
        c <= 1,
    ensures
        c == 0 ==> c * v == 0,
        c == 1 ==> c * v == v,
{
    if c == 1 {
        assert(c * v == v) by (nonlinear_arith)
            requires
                c == 1,
        {}
    }
}

/// Distinct cells of the 2x2 grid never share a pixel: routing the pointer
/// to the first containing viewport is unambiguous.
pub proof fn lemma_grid_cells_disjoint(
    start: ScreenFrac,
    end: ScreenFrac,
    window_w: int,
    window_h: int,
    a: (u32, u32),
    b: (u32, u32),
    x: int,
    y: int,
)
    requires
        start.wf(),
        end.wf(),
        start.x <= end.x,
        start.y <= end.y,
        0 <= window_w <= MAX_WINDOW,
        0 <= window_h <= MAX_WINDOW,
        a.0 <= 1 && a.1 <= 1 && b.0 <= 1 && b.1 <= 1,
        a != b,
        viewport_contains_spec(camera_viewport_spec(start, end, window_w, window_h, a), x, y),
    ensures
        !viewport_contains_spec(camera_viewport_spec(start, end, window_w, window_h, b), x, y),
{
    lemma_scaled_bounds(start.x as int, window_w);
    lemma_scaled_bounds(start.y as int, window_h);
    lemma_scaled_bounds(end.x - start.x, window_w);
    lemma_scaled_bounds(end.y - start.y, window_h);
    lemma_scaled_splits(start.x as int, end.x as int, window_w);
    lemma_scaled_splits(start.y as int, end.y as int, window_h);
    let cam_w = scaled(end.x - start.x, window_w) / 2;
    let cam_h = scaled(end.y - start.y, window_h) / 2;
    assert(0 <= cam_w <= scaled(end.x - start.x, window_w)) by {
        vstd::arithmetic::div_mod::lemma_fundamental_div_mod(
            scaled(end.x - start.x, window_w), 2);
        vstd::arithmetic::div_mod::lemma_mod_division_less_than_divisor(
            scaled(end.x - start.x, window_w), 2);
    }
    assert(0 <= cam_h <= scaled(end.y - start.y, window_h)) by {
        vstd::arithmetic::div_mod::lemma_fundamental_div_mod(
            scaled(end.y - start.y, window_h), 2);
        vstd::arithmetic::div_mod::lemma_mod_division_less_than_divisor(
            scaled(end.y - start.y, window_h), 2);
    }
    lemma_cell_product(a.0, cam_w);
    lemma_cell_product(a.1, cam_h);
    lemma_cell_product(b.0, cam_w);
    lemma_cell_product(b.1, cam_h);
}

/// Whether the viewport grid must be recomputed this frame: on a window
/// resize, on a layout change, and unconditionally in the first frames so no
/// stale viewport is shown.
pub fn should_recalculate(resized: bool, state_changed: bool, frame: u32) -> (r: bool)
    ensures
        r == (resized || state_changed || frame < 3),
{
    resized || state_changed || frame < 3
}

} // verus!
