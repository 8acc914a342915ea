use vstd::prelude::*;
use crate::panel::UiState;

verus! {

/// An RGBA color, each channel in thousandths (0 to 1000).
#[derive(Clone, Copy, Debug, PartialEq, Eq, Structural)]
pub struct Color {
    pub r: u16,
    pub g: u16,
    pub b: u16,
    pub a: u16,
}

/// A filled rectangle with rounded corners, in hundredths of a pixel.
#[derive(Clone, Copy, Debug, PartialEq, Eq, Structural)]
pub struct RoundedBox {
    pub x: i32,
    pub y: i32,
    pub width: i32,
    pub height: i32,
    pub radius: i32,
    pub color: Color,
}

/// Which text of the state a label shows.
#[derive(Clone, Copy, Debug, PartialEq, Eq, Structural)]
pub enum TextSource {
    Time,
    Date,
}

/// Bold text of the given font size, centered on a point given in pixels.
#[derive(Clone, Copy, Debug, PartialEq, Eq, Structural)]
pub struct Label {
    pub source: TextSource,
    pub size: u32,
    pub center_x: i32,
    pub center_y: i32,
    pub color: Color,
}

/// One drawing operation of a frame.
#[derive(Clone, Copy, Debug, PartialEq, Eq, Structural)]
pub enum Shape {
    Fill(RoundedBox),
    Text(Label),
}

pub open spec fn rgba(r: int, g: int, b: int, a: int) -> Color {
    Color { r: r as u16, g: g as u16, b: b as u16, a: a as u16 }
}

pub open spec fn panel_color() -> Color {
    rgba(300, 300, 300, 1000)
}

pub open spec fn text_color() -> Color {
    rgba(1000, 1000, 1000, 1000)
}

/// Fill color of the volume bar: pressed, then hovered, then neutral.
pub open spec fn volume_color(pressed: bool, hovered: bool) -> Color {
    if pressed {
        rgba(900, 200, 200, 1000)
    } else if hovered {
        rgba(1000, 300, 300, 1000)
    } else {
        rgba(1000, 300, 300, 600)
    }
}

/// Fill color of the brightness bar: pressed, then hovered, then neutral.
pub open spec fn brightness_color(pressed: bool, hovered: bool) -> Color {
    if pressed {
        rgba(900, 900, 200, 1000)
    } else if hovered {
        rgba(1000, 1000, 300, 1000)
    } else {
        rgba(1000, 1000, 300, 600)
    }
}

/// The box drawn for the area `(x, y, w, h)` with corner radius `r` and
/// inset `p`: the area shrunk by `p` on every side, its width no less than
/// zero, and the radius no more than that width.
pub open spec fn inset_box(x: int, y: int, w: int, h: int, r: int, p: int, c: Color) -> RoundedBox {
    let iw = if w - 2 * p < 0 {
        0
    } else {
        w - 2 * p
    };
    RoundedBox {
        x: (x + p) as i32,
        y: (y + p) as i32,
        width: iw as i32,
        height: (h - 2 * p) as i32,
        radius: (if iw < r {
            iw
        } else {
            r
        }) as i32,
        color: c,
    }
}

/// A background panel over the pixel area `(x, y, w, h)`.
pub open spec fn panel_box(x: int, y: int, w: int, h: int) -> Shape {
    Shape::Fill(inset_box(x * 100, y * 100, w * 100, h * 100, 600, 400, panel_color()))
}

/// A slider bar in the track whose pixel area starts at `(x, y)`, filled
/// to `percent`: inset by 14 pixels, so that it starts at the slider area's
/// left edge, and `420 * percent / 100` pixels wide, that share of the
/// slider area's width.
pub open spec fn bar_box(x: int, y: int, percent: int, c: Color) -> Shape {
    Shape::Fill(inset_box(x * 100, y * 100, 2800 + 420 * percent, 6000, 600, 1400, c))
}

/// The frame that shows `s`, in drawing order.
pub open spec fn scene_of(s: UiState) -> Seq<Shape> {
    seq![
        panel_box(0, 120, 224, 120),
        panel_box(224, 180, 448, 60),
        bar_box(224, 180, s.volume as int, volume_color(s.volume_pressed, s.volume_hovered)),
        panel_box(224, 120, 448, 60),
        bar_box(
            224,
            120,
            s.brightness as int,
            brightness_color(s.brightness_pressed, s.brightness_hovered),
        ),
        panel_box(0, 0, 336, 120),
        panel_box(336, 0, 336, 120),
        Shape::Text(
            Label {
                source: TextSource::Time,
                size: 50,
                center_x: 112,
                center_y: 170,
                color: text_color(),
            },
        ),
        Shape::Text(
            Label {
                source: TextSource::Date,
                size: 14,
                center_x: 112,
                center_y: 210,
                color: text_color(),
            },
        ),
    ]
}

/// Shrinks the area `(x, y, w, h)` by the inset `p` and limits the corner
/// radius `r` to the width that is left.
pub fn inset(x: i32, y: i32, w: i32, h: i32, r: i32, p: i32, c: Color) -> (b: RoundedBox)
    requires
        r >= 0,
        i32::MIN <= x + p <= i32::MAX,
        i32::MIN <= y + p <= i32::MAX,
        i32::MIN <= w - 2 * p <= i32::MAX,
        i32::MIN <= h - 2 * p <= i32::MAX,
    ensures
        b == inset_box(x as int, y as int, w as int, h as int, r as int, p as int, c),
{
    let iw: i64 = w as i64 - 2 * (p as i64);
    let iw: i32 = if iw < 0 {
        0
    } else {
        iw as i32
    };
    RoundedBox {
        x: x + p,
        y: y + p,
        width: iw,
        height: (h as i64 - 2 * (p as i64)) as i32,
        radius: if iw < r {
            iw
        } else {
            r
        },
        color: c,
    }
}

fn color(r: u16, g: u16, b: u16, a: u16) -> (c: Color)
    ensures
        c == rgba(r as int, g as int, b as int, a as int),
{
    Color { r, g, b, a }
}

fn panel(x: i32, y: i32, w: i32, h: i32) -> (s: Shape)
    requires
        0 <= x <= 1000,
        0 <= y <= 1000,
        0 <= w <= 1000,
        0 <= h <= 1000,
    ensures
        s == panel_box(x as int, y as int, w as int, h as int),
{
    Shape::Fill(inset(x * 100, y * 100, w * 100, h * 100, 600, 400, color(300, 300, 300, 1000)))
}

fn bar(x: i32, y: i32, percent: u32, c: Color) -> (s: Shape)
    requires
        0 <= x <= 1000,
        0 <= y <= 1000,
        percent <= 100,
    ensures
        s == bar_box(x as int, y as int, percent as int, c),
{
    Shape::Fill(inset(x * 100, y * 100, 2800 + 420 * percent as i32, 6000, 600, 1400, c))
}

fn volume_fill(pressed: bool, hovered: bool) -> (c: Color)
    ensures
        c == volume_color(pressed, hovered),
{
    if pressed {
        color(900, 200, 200, 1000)
    } else if hovered {
        color(1000, 300, 300, 1000)
    } else {
        color(1000, 300, 300, 600)
    }
}

fn brightness_fill(pressed: bool, hovered: bool) -> (c: Color)
    ensures
        c == brightness_color(pressed, hovered),
{
    if pressed {
        color(900, 900, 200, 1000)
    } else if hovered {
        color(1000, 1000, 300, 1000)
    } else {
        color(1000, 1000, 300, 600)
    }
}

/// The full frame for `s`: panels, the two slider bars filled to their
/// values, and the clock and date labels. It depends on `s` alone, so
/// drawing an unchanged state twice gives the same frame.
pub fn render(s: &UiState) -> (r: Vec<Shape>)
    requires
        s.wf(),
    ensures
        r@ == scene_of(*s),
{
    let white = color(1000, 1000, 1000, 1000);
    let mut v: Vec<Shape> = Vec::new();
    v.push(panel(0, 120, 224, 120));
    v.push(panel(224, 180, 448, 60));
    v.push(bar(224, 180, s.volume, volume_fill(s.volume_pressed, s.volume_hovered)));
    v.push(panel(224, 120, 448, 60));
    v.push(
        bar(224, 120, s.brightness, brightness_fill(s.brightness_pressed, s.brightness_hovered)),
    );
    v.push(panel(0, 0, 336, 120));
    v.push(panel(336, 0, 336, 120));
    v.push(
        Shape::Text(
            Label {
                source: TextSource::Time,
                size: 50,
                center_x: 112,
                center_y: 170,
                color: white,
            },
        ),
    );
    v.push(
        Shape::Text(
            Label {
                source: TextSource::Date,
                size: 14,
                center_x: 112,
                center_y: 210,
                color: white,
            },
        ),
    );
    assert(v@ =~= scene_of(*s));
    v
}

} // verus!
