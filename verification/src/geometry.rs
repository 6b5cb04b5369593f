//! Window placement on monitors: whether a window is on some screen, how it
//! is pulled back into a monitor's work area, and where the restore pill sits.

use vstd::prelude::*;

verus! {

/// A rectangle in physical pixels: top-left corner and size.
#[derive(Clone, Copy)]
pub struct PhysRect {
    pub x: i32,
    pub y: i32,
    pub width: u32,
    pub height: u32,
}

/// A monitor: its whole area and its work area (without task bars).
#[derive(Clone, Copy)]
pub struct MonitorArea {
    pub area: PhysRect,
    pub work_area: PhysRect,
}

/// Whether the right and bottom edges of `r` are representable as `i32`.
pub open spec fn rect_fits(r: PhysRect) -> bool {
    r.width <= i32::MAX && r.height <= i32::MAX && r.x + r.width <= i32::MAX && r.y
        + r.height <= i32::MAX
}

/// Whether point `(px, py)` lies in `r` (left and top edges included, right
/// and bottom excluded).
pub open spec fn contains_point(r: PhysRect, px: int, py: int) -> bool {
    r.x <= px < r.x + r.width && r.y <= py < r.y + r.height
}

/// Whether some corner of the window `w` lies on the monitor area `m` (the
/// heuristic of the window-state plugin).
pub open spec fn corner_on(m: PhysRect, w: PhysRect) -> bool {
    ||| contains_point(m, w.x as int, w.y as int)
    ||| contains_point(m, w.x + w.width, w.y as int)
    ||| contains_point(m, w.x as int, w.y + w.height)
    ||| contains_point(m, w.x + w.width, w.y + w.height)
}

fn point_in(r: PhysRect, px: i32, py: i32) -> (b: bool)
    requires
        rect_fits(r),
    ensures
        b == contains_point(r, px as int, py as int),
{
    let right = r.x + r.width as i32;
    let bottom = r.y + r.height as i32;
    px >= r.x && px < right && py >= r.y && py < bottom
}

/// Whether some corner of the window lies on the monitor.
pub fn monitor_intersects_window_outer(m: PhysRect, window: PhysRect) -> (b: bool)
    requires
        rect_fits(m),
        rect_fits(window),
    ensures
        b == corner_on(m, window),
{
    let r = window.x + window.width as i32;
    let b = window.y + window.height as i32;
    point_in(m, window.x, window.y) || point_in(m, r, window.y) || point_in(m, window.x, b)
        || point_in(m, r, b)
}

/// Whether some corner of the window lies on one of the monitors.
pub fn window_outer_intersects_any_monitor(monitors: &Vec<MonitorArea>, window: PhysRect) -> (b: bool)
    requires
        rect_fits(window),
        forall|i: int| 0 <= i < monitors@.len() ==> rect_fits(#[trigger] monitors@[i].area),
    ensures
        b == exists|i: int| 0 <= i < monitors@.len() && corner_on(#[trigger] monitors@[i].area, window),
{
    let mut i: usize = 0;
    while i < monitors.len()
        invariant
            i <= monitors@.len(),
            rect_fits(window),
            forall|k: int| 0 <= k < monitors@.len() ==> rect_fits(#[trigger] monitors@[k].area),
            forall|k: int| 0 <= k < i ==> !corner_on(#[trigger] monitors@[k].area, window),
        decreases monitors@.len() - i,
    {
        if monitor_intersects_window_outer(monitors[i].area, window) {
            return true;
        }
        i = i + 1;
    }
    false
}

/// Whether a window's placement is adjusted at all: not anchored behind the
/// desktop icons, visible, not minimised and not maximised. An unknown state
/// counts as invisible and minimised, and as not maximised.
pub fn should_adjust_window(
    wallpaper_active: bool,
    visible: Option<bool>,
    minimized: Option<bool>,
    maximized: Option<bool>,
) -> (b: bool)
    ensures
        b == (!wallpaper_active && visible == Some(true) && minimized == Some(false) && !(
        maximized == Some(true))),
{
    if wallpaper_active {
        return false;
    }
    let vis = match visible {
        Some(v) => v,
        None => false,
    };
    if !vis {
        return false;
    }
    let min = match minimized {
        Some(m) => m,
        None => true,
    };
    if min {
        return false;
    }
    let max = match maximized {
        Some(m) => m,
        None => false,
    };
    !max
}

/// The centre of a window (rounding its half width and height toward zero).
pub open spec fn center_x(w: PhysRect) -> int {
    w.x + (w.width as int) / 2
}

pub open spec fn center_y(w: PhysRect) -> int {
    w.y + (w.height as int) / 2
}

/// The first monitor from index `i` on whose area holds `(cx, cy)`.
pub open spec fn first_holding(monitors: Seq<MonitorArea>, cx: int, cy: int, i: int) -> Option<int>
    decreases monitors.len() - i,
{
    if i < 0 || i >= monitors.len() {
        None
    } else if contains_point(monitors[i].area, cx, cy) {
        Some(i)
    } else {
        first_holding(monitors, cx, cy, i + 1)
    }
}

/// The monitor that a window belongs to: the first whose area holds its
/// centre, else the first monitor.
pub open spec fn chosen_monitor(monitors: Seq<MonitorArea>, w: PhysRect) -> int {
    match first_holding(monitors, center_x(w), center_y(w), 0) {
        Some(i) => i,
        None => 0,
    }
}

/// The window pulled into work area `wa`: at most as wide and tall as the
/// work area (but never limited below 160×120), then moved left/up so that it
/// does not pass the right/bottom edge, then right/down so that it does not
/// pass the left/top edge.
pub open spec fn clamped_rect(w: PhysRect, wa: PhysRect) -> PhysRect {
    let wl = wa.x as int;
    let wt = wa.y as int;
    let wr = wa.x + wa.width;
    let wb = wa.y + wa.height;
    let max_w = if wr - wl > 160 {
        wr - wl
    } else {
        160
    };
    let max_h = if wb - wt > 120 {
        wb - wt
    } else {
        120
    };
    let nw = if w.width > max_w {
        max_w
    } else {
        w.width as int
    };
    let nh = if w.height > max_h {
        max_h
    } else {
        w.height as int
    };
    let l1 = if w.x + nw > wr {
        wr - nw
    } else {
        w.x as int
    };
    let t1 = if w.y + nh > wb {
        wb - nh
    } else {
        w.y as int
    };
    let l2 = if l1 < wl {
        wl
    } else {
        l1
    };
    let t2 = if t1 < wt {
        wt
    } else {
        t1
    };
    PhysRect { x: l2 as i32, y: t2 as i32, width: nw as u32, height: nh as u32 }
}

/// The adjustment for a window: `None` when there is no monitor or nothing
/// changes, else the clamped rectangle in the work area of its monitor.
pub open spec fn clamp_spec(monitors: Seq<MonitorArea>, w: PhysRect) -> Option<PhysRect> {
    if monitors.len() == 0 {
        None
    } else {
        let c = clamped_rect(w, monitors[chosen_monitor(monitors, w)].work_area);
        if c == w {
            None
        } else {
            Some(c)
        }
    }
}

/// Whether work area `wa` keeps every clamping step within `i32`.
pub open spec fn work_area_fits(wa: PhysRect) -> bool {
    rect_fits(wa) && wa.x >= i32::MIN + 160 && wa.y >= i32::MIN + 120
}

fn first_monitor_holding(monitors: &Vec<MonitorArea>, cx: i32, cy: i32) -> (r: Option<usize>)
    requires
        forall|i: int| 0 <= i < monitors@.len() ==> rect_fits(#[trigger] monitors@[i].area),
    ensures
        match r {
            Some(i) => first_holding(monitors@, cx as int, cy as int, 0) == Some(i as int) && i
                < monitors@.len(),
            None => first_holding(monitors@, cx as int, cy as int, 0) is None,
        },
{
    let mut i: usize = 0;
    while i < monitors.len()
        invariant
            i <= monitors@.len(),
            forall|k: int| 0 <= k < monitors@.len() ==> rect_fits(#[trigger] monitors@[k].area),
            first_holding(monitors@, cx as int, cy as int, 0) == first_holding(
                monitors@,
                cx as int,
                cy as int,
                i as int,
            ),
        decreases monitors@.len() - i,
    {
        if point_in(monitors[i].area, cx, cy) {
            return Some(i);
        }
        i = i + 1;
    }
    None
}

/// The placement of the window after pulling it into the work area of the
/// monitor that holds its centre; `None` when nothing is to change.
pub fn clamp_outer_to_work_area(monitors: &Vec<MonitorArea>, window: PhysRect) -> (r: Option<PhysRect>)
    requires
        rect_fits(window),
        forall|i: int|
            0 <= i < monitors@.len() ==> rect_fits(#[trigger] monitors@[i].area) && work_area_fits(
                monitors@[i].work_area,
            ),
    ensures
        r == clamp_spec(monitors@, window),
{
    if monitors.len() == 0 {
        return None;
    }
    let cx = window.x + (window.width as i32) / 2;
    let cy = window.y + (window.height as i32) / 2;
    proof {
        assert(center_x(window) == cx);
    }
    let idx: usize = match first_monitor_holding(monitors, cx, cy) {
        Some(i) => i,
        None => 0,
    };
    assert(rect_fits(monitors@[idx as int].area));
    assert(idx as int == chosen_monitor(monitors@, window));
    let wa = monitors[idx].work_area;
    let wl = wa.x;
    let wt = wa.y;
    let wr = wl + wa.width as i32;
    let wb = wt + wa.height as i32;
    let max_w: u32 = if wr - wl > 160 {
        (wr - wl) as u32
    } else {
        160
    };
    let max_h: u32 = if wb - wt > 120 {
        (wb - wt) as u32
    } else {
        120
    };
    let mut left = window.x;
    let mut top = window.y;
    let mut w = window.width;
    let mut h = window.height;
    if w > max_w {
        w = max_w;
    }
    if h > max_h {
        h = max_h;
    }
    if left + w as i32 > wr {
        left = wr - w as i32;
    }
    if top + h as i32 > wb {
        top = wb - h as i32;
    }
    if left < wl {
        left = wl;
    }
    if top < wt {
        top = wt;
    }
    let c = PhysRect { x: left, y: top, width: w, height: h };
    assert(c == clamped_rect(window, wa));
    if left == window.x && top == window.y && w == window.width && h == window.height {
        None
    } else {
        Some(c)
    }
}

/// Clamping puts the window inside the work area of its monitor, provided
/// that work area is at least 160×120.
pub proof fn clamp_stays_in_work_area(w: PhysRect, wa: PhysRect)
    requires
        rect_fits(w),
        work_area_fits(wa),
        wa.width >= 160,
        wa.height >= 120,
    ensures
        ({
            let c = clamped_rect(w, wa);
            &&& wa.x <= c.x
            &&& c.x + c.width <= wa.x + wa.width
            &&& wa.y <= c.y
            &&& c.y + c.height <= wa.y + wa.height
        }),
{
}

/// A window already inside the work area of its monitor is left where it is.
pub proof fn clamp_keeps_placed_window(w: PhysRect, wa: PhysRect)
    requires
        rect_fits(w),
        work_area_fits(wa),
        wa.x <= w.x,
        w.x + w.width <= wa.x + wa.width,
        wa.y <= w.y,
        w.y + w.height <= wa.y + wa.height,
    ensures
        clamped_rect(w, wa) == w,
{
}

/// Clamping twice is clamping once (for a work area of at least 160×120).
pub proof fn clamp_idempotent(w: PhysRect, wa: PhysRect)
    requires
        rect_fits(w),
        work_area_fits(wa),
        wa.width >= 160,
        wa.height >= 120,
    ensures
        clamped_rect(clamped_rect(w, wa), wa) == clamped_rect(w, wa),
{
    clamp_stays_in_work_area(w, wa);
    clamp_keeps_placed_window(clamped_rect(w, wa), wa);
}

/// A window rectangle as Win32 reports it: left, top, right and bottom edges.
#[derive(Clone, Copy)]
pub struct EdgeRect {
    pub left: i32,
    pub top: i32,
    pub right: i32,
    pub bottom: i32,
}

/// The inset of the restore pill from the main window's bottom-right corner.
pub const PILL_INSET: i32 = 4;

/// The pill's top-left corner: 4 px inside the main window's bottom-right
/// corner, not left of / above the main window, and kept on the virtual screen
/// `(vx, vy, vw, vh)`.
pub open spec fn pill_spec(r: EdgeRect, pill_w: int, pill_h: int, vx: int, vy: int, vw: int, vh: int) -> (int, int) {
    let x0 = r.right - pill_w - PILL_INSET;
    let y0 = r.bottom - pill_h - PILL_INSET;
    let x1 = if x0 < r.left {
        r.left as int
    } else {
        x0
    };
    let y1 = if y0 < r.top {
        r.top as int
    } else {
        y0
    };
    let x2 = if x1 < vx {
        vx
    } else {
        x1
    };
    let y2 = if y1 < vy {
        vy
    } else {
        y1
    };
    let x3 = if x2 + pill_w > vx + vw {
        if vx + vw - pill_w > vx {
            vx + vw - pill_w
        } else {
            vx
        }
    } else {
        x2
    };
    let y3 = if y2 + pill_h > vy + vh {
        if vy + vh - pill_h > vy {
            vy + vh - pill_h
        } else {
            vy
        }
    } else {
        y2
    };
    (x3, y3)
}

/// Whether an integer is an `i32`.
pub open spec fn fits_i32(v: int) -> bool {
    i32::MIN <= v <= i32::MAX
}

/// Whether every sum and difference of the pill placement stays within
/// `i32` (the placement panics on overflow otherwise).
pub open spec fn pill_inputs_fit(r: EdgeRect, pill_w: i32, pill_h: i32, vx: i32, vy: i32, vw: i32, vh: i32) -> bool {
    let x0 = r.right - pill_w - PILL_INSET;
    let y0 = r.bottom - pill_h - PILL_INSET;
    let x1 = if x0 < r.left {
        r.left as int
    } else {
        x0
    };
    let y1 = if y0 < r.top {
        r.top as int
    } else {
        y0
    };
    let x2 = if x1 < vx {
        vx as int
    } else {
        x1
    };
    let y2 = if y1 < vy {
        vy as int
    } else {
        y1
    };
    &&& fits_i32(r.right - pill_w) && fits_i32(x0)
    &&& fits_i32(r.bottom - pill_h) && fits_i32(y0)
    &&& fits_i32(x2 + pill_w) && fits_i32(vx + vw)
    &&& (x2 + pill_w > vx + vw ==> fits_i32(vx + vw - pill_w))
    &&& fits_i32(y2 + pill_h) && fits_i32(vy + vh)
    &&& (y2 + pill_h > vy + vh ==> fits_i32(vy + vh - pill_h))
}

/// Where the restore pill goes beside the main window.
pub fn pill_position_beside(
    r: EdgeRect,
    pill_w: i32,
    pill_h: i32,
    vx: i32,
    vy: i32,
    vw: i32,
    vh: i32,
) -> (p: (i32, i32))
    requires
        pill_inputs_fit(r, pill_w, pill_h, vx, vy, vw, vh),
    ensures
        (p.0 as int, p.1 as int) == pill_spec(
            r,
            pill_w as int,
            pill_h as int,
            vx as int,
            vy as int,
            vw as int,
            vh as int,
        ),
{
    let mut x = r.right - pill_w - PILL_INSET;
    let mut y = r.bottom - pill_h - PILL_INSET;
    if x < r.left {
        x = r.left;
    }
    if y < r.top {
        y = r.top;
    }
    if x < vx {
        x = vx;
    }
    if y < vy {
        y = vy;
    }
    if x + pill_w > vx + vw {
        let a = vx + vw - pill_w;
        x = if a > vx {
            a
        } else {
            vx
        };
    }
    if y + pill_h > vy + vh {
        let a = vy + vh - pill_h;
        y = if a > vy {
            a
        } else {
            vy
        };
    }
    (x, y)
}

/// The pill always starts on the virtual screen, and fits on it entirely
/// whenever it is no larger than the screen.
pub proof fn pill_on_virtual_screen(r: EdgeRect, pw: int, ph: int, vx: int, vy: int, vw: int, vh: int)
    requires
        0 <= pw <= vw,
        0 <= ph <= vh,
    ensures
        ({
            let p = pill_spec(r, pw, ph, vx, vy, vw, vh);
            &&& vx <= p.0 && p.0 + pw <= vx + vw
            &&& vy <= p.1 && p.1 + ph <= vy + vh
        }),
{
}

proof fn lemma_first_holding_is(monitors: Seq<MonitorArea>, px: int, py: int, i: int, k: int)
    requires
        0 <= k <= i < monitors.len(),
        contains_point(monitors[i].area, px, py),
        forall|j: int| k <= j < i ==> !contains_point(#[trigger] monitors[j].area, px, py),
    ensures
        first_holding(monitors, px, py, k) == Some(i),
    decreases i - k,
{
    if k < i {
        lemma_first_holding_is(monitors, px, py, i, k + 1);
    }
}

proof fn lemma_first_holding_none(monitors: Seq<MonitorArea>, px: int, py: int, k: int)
    requires
        0 <= k <= monitors.len(),
        forall|j: int| k <= j < monitors.len() ==> !contains_point(#[trigger] monitors[j].area, px, py),
    ensures
        first_holding(monitors, px, py, k) is None,
    decreases monitors.len() - k,
{
    if k < monitors.len() {
        lemma_first_holding_none(monitors, px, py, k + 1);
    }
}

/// A window is pulled into the work area of the first monitor whose area
/// holds the point `(x + width / 2, y + height / 2)`, its middle; when no
/// monitor holds that point, into the first monitor's. The result is that
/// clamped rectangle, or `None` when it is the window itself.
pub proof fn clamp_uses_monitor_of_window_middle(monitors: Seq<MonitorArea>, w: PhysRect)
    requires
        monitors.len() > 0,
    ensures
        ({
            let px = w.x + (w.width as int) / 2;
            let py = w.y + (w.height as int) / 2;
            &&& forall|i: int|
                #![trigger monitors[i]]
                0 <= i < monitors.len() && contains_point(monitors[i].area, px, py) && (forall|j: int|
                    0 <= j < i ==> !contains_point(#[trigger] monitors[j].area, px, py)) ==> clamp_spec(
                    monitors,
                    w,
                ) == if clamped_rect(w, monitors[i].work_area) == w {
                    None
                } else {
                    Some(clamped_rect(w, monitors[i].work_area))
                }
            &&& (forall|j: int| 0 <= j < monitors.len() ==> !contains_point(#[trigger] monitors[j].area, px, py))
                ==> clamp_spec(monitors, w) == if clamped_rect(w, monitors[0].work_area) == w {
                None
            } else {
                Some(clamped_rect(w, monitors[0].work_area))
            }
        }),
{
    let px = w.x + (w.width as int) / 2;
    let py = w.y + (w.height as int) / 2;
    assert forall|i: int|
        0 <= i < monitors.len() && contains_point(monitors[i].area, px, py) && (forall|j: int|
            0 <= j < i ==> !contains_point(#[trigger] monitors[j].area, px, py)) implies chosen_monitor(monitors, w)
        == i by {
        lemma_first_holding_is(monitors, px, py, i, 0);
    }
    if forall|j: int| 0 <= j < monitors.len() ==> !contains_point(#[trigger] monitors[j].area, px, py) {
        lemma_first_holding_none(monitors, px, py, 0);
    }
}

} // verus!
