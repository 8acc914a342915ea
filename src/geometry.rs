use vstd::prelude::*;
use vstd::arithmetic::div_mod::lemma_div_is_ordered;

verus! {

/// Width of the panel window in pixels.
pub const PANEL_WIDTH: i32 = 672;

/// Height of the panel window in pixels.
pub const PANEL_HEIGHT: i32 = 240;

/// Width of the screen the panel is placed on, in pixels.
pub const SCREEN_WIDTH: i32 = 1920;

/// Height of the screen the panel is placed on, in pixels.
pub const SCREEN_HEIGHT: i32 = 1200;

/// Left edge of the panel window on the screen: centered horizontally,
/// `(SCREEN_WIDTH - PANEL_WIDTH) / 2`.
pub const WINDOW_X: i32 = 624;

/// Top edge of the panel window on the screen: 20 pixels above the bottom.
pub const WINDOW_Y: i32 = SCREEN_HEIGHT - PANEL_HEIGHT - 20;

/// An axis-aligned rectangle in window-local pixel coordinates.
#[derive(Clone, Copy, Debug, PartialEq, Eq, Structural)]
pub struct Rect {
    pub x: i32,
    pub y: i32,
    pub width: i32,
    pub height: i32,
}

/// Whether the point `(px, py)` lies in `r`, all four edges included.
pub open spec fn point_in(r: Rect, px: int, py: int) -> bool {
    &&& r.x <= px <= r.x + r.width
    &&& r.y <= py <= r.y + r.height
}

/// Clamps an integer to the percentage range `[0, 100]`.
pub open spec fn clamp_percent(v: int) -> int {
    if v < 0 {
        0
    } else if v > 100 {
        100
    } else {
        v
    }
}

/// The slider value that a pointer at `px` selects on a slider spanning `r`:
/// the pointer's offset from the left edge as a percentage of the width,
/// truncated and clamped to `[0, 100]`.
pub open spec fn slider_percent(r: Rect, px: int) -> int {
    clamp_percent(((px - r.x) * 100) / (r.width as int))
}

/// The volume slider's hit area: the lower right quarter-height strip of the
/// panel, inset by 14 pixels.
pub open spec fn volume_area() -> Rect {
    Rect { x: 238, y: 194, width: 420, height: 32 }
}

/// The brightness slider's hit area: the strip above the volume slider.
pub open spec fn brightness_area() -> Rect {
    Rect { x: 238, y: 134, width: 420, height: 32 }
}

impl Rect {
    /// A rectangle is usable as a slider when it has a positive width and a
    /// non-negative height.
    pub open spec fn wf(self) -> bool {
        self.width > 0 && self.height >= 0
    }

    /// Hit test with inclusive bounds on all four sides.
    pub fn contains(&self, px: i32, py: i32) -> (r: bool)
        ensures
            r == point_in(*self, px as int, py as int),
    {
        let x = self.x as i64;
        let y = self.y as i64;
        let px = px as i64;
        let py = py as i64;
        x <= px && px <= x + self.width as i64 && y <= py && py <= y + self.height as i64
    }

    /// The slider value selected by a pointer at horizontal position `px`.
    pub fn slider_value(&self, px: i32) -> (v: u32)
        requires
            self.wf(),
        ensures
            v as int == slider_percent(*self, px as int),
            v <= 100,
    {
        let d: i64 = px as i64 - self.x as i64;
        let w: i64 = self.width as i64;
        if d <= 0 {
            proof {
                let n = (d as int) * 100;
                assert(n / (w as int) <= 0) by (nonlinear_arith)
                    requires n <= 0, w > 0;
            }
            0
        } else if d >= w {
            proof {
                let n = (d as int) * 100;
                assert(n / (w as int) >= 100) by (nonlinear_arith)
                    requires n >= (w as int) * 100, w > 0;
            }
            100
        } else {
            let n: i64 = d * 100;
            let q: i64 = n / w;
            proof {
                assert(0 <= q <= 100) by (nonlinear_arith)
                    requires q == n / w, 0 < d < w, n == d * 100;
            }
            q as u32
        }
    }

    /// The volume slider's hit area.
    pub fn volume_slider() -> (r: Rect)
        ensures
            r == volume_area(),
            r.wf(),
    {
        Rect {
            x: PANEL_WIDTH / 3 + 14,
            y: PANEL_HEIGHT * 3 / 4 + 14,
            width: PANEL_WIDTH * 2 / 3 - 28,
            height: PANEL_HEIGHT / 4 - 28,
        }
    }

    /// The brightness slider's hit area.
    pub fn brightness_slider() -> (r: Rect)
        ensures
            r == brightness_area(),
            r.wf(),
    {
        Rect {
            x: PANEL_WIDTH / 3 + 14,
            y: PANEL_HEIGHT / 2 + 14,
            width: PANEL_WIDTH * 2 / 3 - 28,
            height: PANEL_HEIGHT / 4 - 28,
        }
    }
}

/// A slider value always lies in `[0, 100]`; it is 0 at the left edge, 100
/// at the right edge, and never decreases as the pointer moves right.
pub proof fn lemma_slider_percent(r: Rect, px1: int, px2: int)
    requires
        r.wf(),
        px1 <= px2,
    ensures
        0 <= slider_percent(r, px1) <= 100,
        slider_percent(r, px1) <= slider_percent(r, px2),
        slider_percent(r, r.x as int) == 0,
        slider_percent(r, r.x + r.width) == 100,
{
    lemma_div_is_ordered((px1 - r.x) * 100, (px2 - r.x) * 100, r.width as int);
    assert(((r.width as int) * 100) / (r.width as int) == 100) by (nonlinear_arith)
        requires r.width > 0;
}

} // verus!
