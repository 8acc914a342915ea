use vstd::prelude::*;
use crate::geometry::{WINDOW_X, WINDOW_Y, Rect, point_in, slider_percent, volume_area, brightness_area};
use crate::clock::{clock_text, LocalTime, DATE_PATTERN, clock_due, refresh_due, now_local};

verus! {

/// Pointer button number of the primary button.
pub const PRIMARY_BUTTON: u8 = 1;

/// The values a frame shows.
pub struct UiState {
    pub time: String,
    pub date: String,
    pub volume: u32,
    pub volume_hovered: bool,
    pub volume_pressed: bool,
    pub brightness: u32,
    pub brightness_hovered: bool,
    pub brightness_pressed: bool,
}

/// An input event, already decoded, with pointer positions in window-local
/// coordinates.
#[derive(Clone, Copy, Debug, PartialEq, Eq, Structural)]
pub enum Event {
    Expose,
    ButtonPress { button: u8, x: i32, y: i32 },
    ButtonRelease { button: u8 },
    Motion { x: i32, y: i32 },
    KeyPress { keycode: u8 },
    Other,
}

/// Response type of a key press event.
pub const KEY_PRESS: u8 = 2;

/// Response type of a button press event.
pub const BUTTON_PRESS: u8 = 4;

/// Response type of a button release event.
pub const BUTTON_RELEASE: u8 = 5;

/// Response type of a pointer motion event.
pub const MOTION_NOTIFY: u8 = 6;

/// Response type of an expose event.
pub const EXPOSE: u8 = 12;

/// The event that a raw event with the given response type, detail byte and
/// root-window pointer position stands for; positions are made relative to
/// the panel window.
pub open spec fn decoded(response_type: u8, detail: u8, root_x: int, root_y: int) -> Event {
    let x = (root_x - WINDOW_X) as i32;
    let y = (root_y - WINDOW_Y) as i32;
    if response_type == EXPOSE {
        Event::Expose
    } else if response_type == KEY_PRESS {
        Event::KeyPress { keycode: detail }
    } else if response_type == BUTTON_PRESS {
        Event::ButtonPress { button: detail, x, y }
    } else if response_type == BUTTON_RELEASE {
        Event::ButtonRelease { button: detail }
    } else if response_type == MOTION_NOTIFY {
        Event::Motion { x, y }
    } else {
        Event::Other
    }
}

impl Event {
    /// Decodes a raw event from its response type, detail byte and pointer
    /// position on the root window. Unknown response types become `Other`.
    pub fn decode(response_type: u8, detail: u8, root_x: i16, root_y: i16) -> (e: Event)
        ensures
            e == decoded(response_type, detail, root_x as int, root_y as int),
    {
        let x = root_x as i32 - WINDOW_X;
        let y = root_y as i32 - WINDOW_Y;
        if response_type == EXPOSE {
            Event::Expose
        } else if response_type == KEY_PRESS {
            Event::KeyPress { keycode: detail }
        } else if response_type == BUTTON_PRESS {
            Event::ButtonPress { button: detail, x, y }
        } else if response_type == BUTTON_RELEASE {
            Event::ButtonRelease { button: detail }
        } else if response_type == MOTION_NOTIFY {
            Event::Motion { x, y }
        } else {
            Event::Other
        }
    }
}

/// The state that the event loop owns: what is shown, whether a slider is
/// being dragged, and the two slider hit areas.
pub struct Session {
    pub ui: UiState,
    pub dragging: bool,
    pub volume_area: Rect,
    pub brightness_area: Rect,
    /// When the clock text was last refreshed, on the loop's monotonic
    /// millisecond clock.
    pub last_refresh_ms: u64,
}

/// Whether two rectangles share no point.
pub open spec fn disjoint(a: Rect, b: Rect) -> bool {
    a.y + a.height < b.y || b.y + b.height < a.y || a.x + a.width < b.x || b.x + b.width < a.x
}

impl UiState {
    /// Both slider values are percentages, a slider is never hovered and
    /// pressed at once, at most one slider is pressed and at most one is
    /// hovered.
    pub open spec fn wf(&self) -> bool {
        &&& self.volume <= 100
        &&& self.brightness <= 100
        &&& !(self.volume_hovered && self.volume_pressed)
        &&& !(self.brightness_hovered && self.brightness_pressed)
        &&& !(self.volume_pressed && self.brightness_pressed)
        &&& !(self.volume_hovered && self.brightness_hovered)
    }
}

impl UiState {
    /// The state at startup: both sliders at 50, nothing hovered or
    /// pressed, and the clock and date text of `t`.
    pub fn new(t: &LocalTime) -> (r: UiState)
        requires
            t.wf(),
        ensures
            r.time@ == clock_text(t.hour as int, t.minute as int),
            r.date@ == t.text(DATE_PATTERN@),
            r.volume == 50,
            r.brightness == 50,
            !r.volume_hovered && !r.volume_pressed,
            !r.brightness_hovered && !r.brightness_pressed,
            r.wf(),
    {
        UiState {
            time: t.time_text(),
            date: t.date_text(),
            volume: 50,
            volume_hovered: false,
            volume_pressed: false,
            brightness: 50,
            brightness_hovered: false,
            brightness_pressed: false,
        }
    }

    /// Replaces the clock and date text with those of `t`, keeping the rest.
    pub fn set_clock(&mut self, t: &LocalTime)
        requires
            t.wf(),
        ensures
            final(self).time@ == clock_text(t.hour as int, t.minute as int),
            final(self).date@ == t.text(DATE_PATTERN@),
            final(self).volume == old(self).volume,
            final(self).volume_hovered == old(self).volume_hovered,
            final(self).volume_pressed == old(self).volume_pressed,
            final(self).brightness == old(self).brightness,
            final(self).brightness_hovered == old(self).brightness_hovered,
            final(self).brightness_pressed == old(self).brightness_pressed,
    {
        self.time = t.time_text();
        self.date = t.date_text();
    }
}

impl Session {
    /// The session at startup, at `now_ms` on the loop's clock, showing
    /// the time `t`, with the two slider areas of the panel.
    pub fn new(t: &LocalTime, now_ms: u64) -> (r: Session)
        requires
            t.wf(),
        ensures
            r.ui.time@ == clock_text(t.hour as int, t.minute as int),
            r.ui.date@ == t.text(DATE_PATTERN@),
            r.ui.volume == 50,
            r.ui.brightness == 50,
            !r.ui.volume_hovered && !r.ui.volume_pressed,
            !r.ui.brightness_hovered && !r.ui.brightness_pressed,
            !r.dragging,
            r.volume_area == volume_area(),
            r.brightness_area == brightness_area(),
            r.last_refresh_ms == now_ms,
            r.wf(),
    {
        Session {
            ui: UiState::new(t),
            dragging: false,
            volume_area: Rect::volume_slider(),
            brightness_area: Rect::brightness_slider(),
            last_refresh_ms: now_ms,
        }
    }

    /// The session at startup, showing the local wall-clock time.
    pub fn start(now_ms: u64) -> (r: Session)
        ensures
            exists|t: LocalTime|
                #![trigger t.text(DATE_PATTERN@)]
                t.wf() && r.ui.time@ == clock_text(t.hour as int, t.minute as int)
                    && r.ui.date@ == t.text(DATE_PATTERN@),
            r.ui.volume == 50,
            r.ui.brightness == 50,
            !r.ui.volume_hovered && !r.ui.volume_pressed,
            !r.ui.brightness_hovered && !r.ui.brightness_pressed,
            !r.dragging,
            r.volume_area == volume_area(),
            r.brightness_area == brightness_area(),
            r.last_refresh_ms == now_ms,
            r.wf(),
    {
        let t = now_local();
        Session::new(&t, now_ms)
    }

    /// The clock refresh of one loop iteration at `now_ms`, with `t` the
    /// wall-clock time: when a refresh is due the clock text becomes that of
    /// `t` and the refresh time `now_ms`, and a redraw is due; otherwise
    /// nothing changes.
    pub fn refresh_clock(&mut self, t: &LocalTime, now_ms: u64) -> (redraw: bool)
        requires
            t.wf(),
            old(self).wf(),
        ensures
            redraw == refresh_due(old(self).last_refresh_ms as int, now_ms as int),
            redraw ==> final(self).ui.time@ == clock_text(t.hour as int, t.minute as int),
            redraw ==> final(self).ui.date@ == t.text(DATE_PATTERN@),
            redraw ==> final(self).last_refresh_ms == now_ms,
            !redraw ==> *final(self) == *old(self),
            final(self).same_but_clock(*old(self)),
            final(self).wf(),
    {
        if clock_due(self.last_refresh_ms, now_ms) {
            self.ui.set_clock(t);
            self.last_refresh_ms = now_ms;
            true
        } else {
            false
        }
    }

    /// Start of a loop iteration at `now_ms`: refreshes the clock text from
    /// the local wall clock when a refresh is due, and says whether that
    /// calls for a redraw.
    pub fn tick(&mut self, now_ms: u64) -> (redraw: bool)
        requires
            old(self).wf(),
        ensures
            redraw == refresh_due(old(self).last_refresh_ms as int, now_ms as int),
            redraw ==> exists|t: LocalTime|
                #![trigger t.text(DATE_PATTERN@)]
                t.wf() && final(self).ui.time@ == clock_text(t.hour as int, t.minute as int)
                    && final(self).ui.date@ == t.text(DATE_PATTERN@),
            redraw ==> final(self).last_refresh_ms == now_ms,
            !redraw ==> *final(self) == *old(self),
            final(self).same_but_clock(*old(self)),
            final(self).wf(),
    {
        if clock_due(self.last_refresh_ms, now_ms) {
            let t = now_local();
            self.refresh_clock(&t, now_ms)
        } else {
            false
        }
    }

    /// Everything but the clock text and its refresh time agrees.
    pub open spec fn same_but_clock(self, other: Session) -> bool {
        &&& self.dragging == other.dragging
        &&& self.volume_area == other.volume_area
        &&& self.brightness_area == other.brightness_area
        &&& self.ui.volume == other.ui.volume
        &&& self.ui.volume_hovered == other.ui.volume_hovered
        &&& self.ui.volume_pressed == other.ui.volume_pressed
        &&& self.ui.brightness == other.ui.brightness
        &&& self.ui.brightness_hovered == other.ui.brightness_hovered
        &&& self.ui.brightness_pressed == other.ui.brightness_pressed
    }

    /// The slider areas are usable and disjoint, the shown state is
    /// well formed, and dragging is on exactly when a slider is pressed.
    pub open spec fn wf(&self) -> bool {
        &&& self.volume_area.wf()
        &&& self.brightness_area.wf()
        &&& disjoint(self.volume_area, self.brightness_area)
        &&& self.ui.wf()
        &&& self.dragging == (self.ui.volume_pressed || self.ui.brightness_pressed)
    }

    /// The session after the primary button is pressed at `(x, y)`, and
    /// whether a redraw is due.
    pub open spec fn after_press(self, x: int, y: int) -> (Session, bool) {
        if point_in(self.volume_area, x, y) {
            (Session {
                ui: UiState {
                    volume: slider_percent(self.volume_area, x) as u32,
                    volume_pressed: true,
                    volume_hovered: false,
                    brightness_pressed: false,
                    brightness_hovered: false,
                    ..self.ui
                },
                dragging: true,
                ..self
            }, true)
        } else if point_in(self.brightness_area, x, y) {
            (Session {
                ui: UiState {
                    brightness: slider_percent(self.brightness_area, x) as u32,
                    brightness_pressed: true,
                    brightness_hovered: false,
                    volume_pressed: false,
                    volume_hovered: false,
                    ..self.ui
                },
                dragging: true,
                ..self
            }, true)
        } else {
            (self, false)
        }
    }

    /// The session after the primary button is released: no slider is
    /// pressed and dragging is off.
    pub open spec fn after_release(self) -> Session {
        Session {
            ui: UiState { volume_pressed: false, brightness_pressed: false, ..self.ui },
            dragging: false,
            ..self
        }
    }

    /// The session after the pointer moves to `(x, y)`, and whether a redraw
    /// is due. Hover flags are cleared; when not dragging the slider under
    /// the pointer becomes hovered, and when dragging the pressed slider
    /// follows the pointer.
    pub open spec fn after_motion(self, x: int, y: int) -> (Session, bool) {
        let cleared = UiState { volume_hovered: false, brightness_hovered: false, ..self.ui };
        let on_volume = point_in(self.volume_area, x, y);
        let on_brightness = point_in(self.brightness_area, x, y);
        if !self.dragging {
            (Session {
                ui: UiState {
                    volume_hovered: on_volume,
                    brightness_hovered: !on_volume && on_brightness,
                    ..cleared
                },
                ..self
            }, true)
        } else if self.ui.volume_pressed {
            (Session {
                ui: UiState { volume: slider_percent(self.volume_area, x) as u32, ..cleared },
                ..self
            }, true)
        } else if self.ui.brightness_pressed {
            (Session {
                ui: UiState {
                    brightness: slider_percent(self.brightness_area, x) as u32,
                    ..cleared
                },
                ..self
            }, true)
        } else {
            (Session { ui: cleared, ..self }, false)
        }
    }

    /// The session after `e`, and whether a redraw is due.
    pub open spec fn step(self, e: Event) -> (Session, bool) {
        match e {
            Event::Expose => (self, true),
            Event::ButtonPress { button, x, y } => if button == PRIMARY_BUTTON {
                self.after_press(x as int, y as int)
            } else {
                (self, false)
            },
            Event::ButtonRelease { button } => if button == PRIMARY_BUTTON {
                (self.after_release(), false)
            } else {
                (self, false)
            },
            Event::Motion { x, y } => self.after_motion(x as int, y as int),
            Event::KeyPress { .. } => (self, false),
            Event::Other => (self, false),
        }
    }

    /// Applies a primary-button press at `(x, y)`; returns whether a redraw
    /// is due.
    pub fn press(&mut self, x: i32, y: i32) -> (redraw: bool)
        requires
            old(self).wf(),
        ensures
            (*final(self), redraw) == old(self).after_press(x as int, y as int),
    {
        if self.volume_area.contains(x, y) {
            self.ui.volume = self.volume_area.slider_value(x);
            self.ui.volume_pressed = true;
            self.ui.volume_hovered = false;
            self.ui.brightness_pressed = false;
            self.ui.brightness_hovered = false;
            self.dragging = true;
            true
        } else if self.brightness_area.contains(x, y) {
            self.ui.brightness = self.brightness_area.slider_value(x);
            self.ui.brightness_pressed = true;
            self.ui.brightness_hovered = false;
            self.ui.volume_pressed = false;
            self.ui.volume_hovered = false;
            self.dragging = true;
            true
        } else {
            false
        }
    }

    /// Applies a primary-button release: clears both pressed flags and
    /// dragging, whichever slider was active.
    pub fn release(&mut self)
        ensures
            *final(self) == old(self).after_release(),
    {
        self.dragging = false;
        self.ui.volume_pressed = false;
        self.ui.brightness_pressed = false;
    }

    /// Applies a pointer motion to `(x, y)`; returns whether a redraw is due.
    pub fn motion(&mut self, x: i32, y: i32) -> (redraw: bool)
        requires
            old(self).wf(),
        ensures
            (*final(self), redraw) == old(self).after_motion(x as int, y as int),
    {
        self.ui.volume_hovered = false;
        self.ui.brightness_hovered = false;
        if !self.dragging {
            if self.volume_area.contains(x, y) {
                self.ui.volume_hovered = true;
            } else if self.brightness_area.contains(x, y) {
                self.ui.brightness_hovered = true;
            }
            true
        } else if self.ui.volume_pressed {
            self.ui.volume = self.volume_area.slider_value(x);
            true
        } else if self.ui.brightness_pressed {
            self.ui.brightness = self.brightness_area.slider_value(x);
            true
        } else {
            false
        }
    }

    /// Routes one event to its handler; returns whether a redraw is due.
    pub fn dispatch(&mut self, e: Event) -> (redraw: bool)
        requires
            old(self).wf(),
        ensures
            (*final(self), redraw) == old(self).step(e),
            final(self).wf(),
    {
        proof {
            lemma_step_keeps_wf(*self, e);
        }
        match e {
            Event::Expose => true,
            Event::ButtonPress { button, x, y } => {
                if button == PRIMARY_BUTTON {
                    self.press(x, y)
                } else {
                    false
                }
            },
            Event::ButtonRelease { button } => {
                if button == PRIMARY_BUTTON {
                    self.release();
                }
                false
            },
            Event::Motion { x, y } => self.motion(x, y),
            Event::KeyPress { .. } => false,
            Event::Other => false,
        }
    }
}

/// Every event keeps a well-formed session well formed: a slider is never
/// both hovered and pressed, at most one slider is pressed, at most one is
/// hovered, and values stay within `[0, 100]`.
pub proof fn lemma_step_keeps_wf(s: Session, e: Event)
    requires
        s.wf(),
    ensures
        s.step(e).0.wf(),
        s.step(e).0.volume_area == s.volume_area,
        s.step(e).0.brightness_area == s.brightness_area,
{
    match e {
        Event::ButtonPress { x, .. } => {
            crate::geometry::lemma_slider_percent(s.volume_area, x as int, x as int);
            crate::geometry::lemma_slider_percent(s.brightness_area, x as int, x as int);
        },
        Event::Motion { x, .. } => {
            crate::geometry::lemma_slider_percent(s.volume_area, x as int, x as int);
            crate::geometry::lemma_slider_percent(s.brightness_area, x as int, x as int);
        },
        _ => {},
    }
}

/// Releasing the primary button leaves no slider pressed and dragging off,
/// keeps everything else, and releasing again changes nothing.
pub proof fn lemma_release_clears(s: Session)
    ensures
        ({
            let (t, redraw) = s.step(Event::ButtonRelease { button: PRIMARY_BUTTON });
            &&& !t.ui.volume_pressed
            &&& !t.ui.brightness_pressed
            &&& !t.dragging
            &&& !redraw
            &&& t.ui.volume == s.ui.volume
            &&& t.ui.brightness == s.ui.brightness
            &&& t.ui.volume_hovered == s.ui.volume_hovered
            &&& t.ui.brightness_hovered == s.ui.brightness_hovered
            &&& t.step(Event::ButtonRelease { button: PRIMARY_BUTTON }).0 == t
        }),
{
}

} // verus!
