use overlay_panel::clock::{clock_due, frame_sleep_micros, LocalTime, FRAME_MICROS};
use overlay_panel::geometry::Rect;
use overlay_panel::panel::{Event, Session, UiState};
use overlay_panel::scene::{inset, render, Color, Label, RoundedBox, Shape, TextSource};

fn sample_time() -> LocalTime {
    LocalTime { year: 2025, month: 3, day: 4, hour: 9, minute: 5 }
}

fn fresh() -> Session {
    Session::new(&sample_time(), 0)
}

#[test]
fn slider_areas_match_panel_layout() {
    assert_eq!(Rect::volume_slider(), Rect { x: 238, y: 194, width: 420, height: 32 });
    assert_eq!(Rect::brightness_slider(), Rect { x: 238, y: 134, width: 420, height: 32 });
}

#[test]
fn hit_test_includes_all_edges() {
    let r = Rect { x: 10, y: 20, width: 30, height: 40 };
    assert!(r.contains(10, 20));
    assert!(r.contains(40, 60));
    assert!(r.contains(10, 60));
    assert!(r.contains(40, 20));
    assert!(r.contains(25, 35));
}

#[test]
fn hit_test_rejects_points_outside() {
    let r = Rect { x: 10, y: 20, width: 30, height: 40 };
    assert!(!r.contains(9, 30));
    assert!(!r.contains(41, 30));
    assert!(!r.contains(20, 19));
    assert!(!r.contains(20, 61));
    assert!(!r.contains(i32::MIN, i32::MAX));
}

#[test]
fn quarter_press_gives_twenty_five() {
    let r = Rect::volume_slider();
    assert_eq!(r.slider_value(r.x + r.width / 4), 25);
}

#[test]
fn slider_value_edges_and_clamping() {
    let r = Rect::volume_slider();
    assert_eq!(r.slider_value(r.x), 0);
    assert_eq!(r.slider_value(r.x + r.width), 100);
    assert_eq!(r.slider_value(r.x - 50), 0);
    assert_eq!(r.slider_value(r.x + r.width + 50), 100);
    assert_eq!(r.slider_value(i32::MIN), 0);
    assert_eq!(r.slider_value(i32::MAX), 100);
    assert_eq!(r.slider_value(r.x + 1), 0);
    assert_eq!(r.slider_value(r.x + 5), 1);
    assert_eq!(r.slider_value(r.x + 419), 99);
}

#[test]
fn slider_value_never_decreases() {
    let r = Rect::volume_slider();
    let mut last = 0;
    for px in (r.x - 10)..=(r.x + r.width + 10) {
        let v = r.slider_value(px);
        assert!(v <= 100);
        assert!(v >= last);
        last = v;
    }
}

#[test]
fn new_session_defaults() {
    let s = fresh();
    assert_eq!(s.ui.volume, 50);
    assert_eq!(s.ui.brightness, 50);
    assert!(!s.ui.volume_hovered && !s.ui.volume_pressed);
    assert!(!s.ui.brightness_hovered && !s.ui.brightness_pressed);
    assert!(!s.dragging);
    assert_eq!(s.ui.time, "9:05");
    assert_eq!(s.ui.date, "Tue, Mar 4 2025");
    assert_eq!(s.last_refresh_ms, 0);
}

#[test]
fn press_on_volume_starts_drag() {
    let mut s = fresh();
    let r = s.volume_area;
    assert!(s.dispatch(Event::ButtonPress { button: 1, x: r.x + 105, y: r.y + 1 }));
    assert_eq!(s.ui.volume, 25);
    assert!(s.ui.volume_pressed);
    assert!(!s.ui.brightness_pressed);
    assert!(s.dragging);
    assert_eq!(s.ui.brightness, 50);
}

#[test]
fn press_on_brightness_starts_drag() {
    let mut s = fresh();
    let r = s.brightness_area;
    assert!(s.dispatch(Event::ButtonPress { button: 1, x: r.x + r.width, y: r.y }));
    assert_eq!(s.ui.brightness, 100);
    assert!(s.ui.brightness_pressed);
    assert!(!s.ui.volume_pressed);
    assert!(s.dragging);
    assert_eq!(s.ui.volume, 50);
}

#[test]
fn press_outside_or_other_button_does_nothing() {
    let mut s = fresh();
    assert!(!s.dispatch(Event::ButtonPress { button: 1, x: 5, y: 5 }));
    assert!(!s.dragging);
    let r = s.volume_area;
    assert!(!s.dispatch(Event::ButtonPress { button: 3, x: r.x + 10, y: r.y + 10 }));
    assert!(!s.dragging);
    assert!(!s.ui.volume_pressed);
    assert_eq!(s.ui.volume, 50);
}

#[test]
fn press_clears_hover() {
    let mut s = fresh();
    let r = s.volume_area;
    s.dispatch(Event::Motion { x: r.x + 10, y: r.y + 10 });
    assert!(s.ui.volume_hovered);
    s.dispatch(Event::ButtonPress { button: 1, x: r.x + 10, y: r.y + 10 });
    assert!(s.ui.volume_pressed);
    assert!(!s.ui.volume_hovered);
}

#[test]
fn release_clears_pressed_and_dragging() {
    let mut s = fresh();
    let r = s.volume_area;
    s.dispatch(Event::ButtonPress { button: 1, x: r.x + 10, y: r.y + 10 });
    assert!(!s.dispatch(Event::ButtonRelease { button: 1 }));
    assert!(!s.ui.volume_pressed && !s.ui.brightness_pressed);
    assert!(!s.dragging);
    let v = s.ui.volume;
    assert!(!s.dispatch(Event::ButtonRelease { button: 1 }));
    assert!(!s.ui.volume_pressed && !s.ui.brightness_pressed);
    assert!(!s.dragging);
    assert_eq!(s.ui.volume, v);
}

#[test]
fn release_of_other_button_keeps_drag() {
    let mut s = fresh();
    let r = s.brightness_area;
    s.dispatch(Event::ButtonPress { button: 1, x: r.x + 10, y: r.y + 10 });
    assert!(!s.dispatch(Event::ButtonRelease { button: 2 }));
    assert!(s.dragging);
    assert!(s.ui.brightness_pressed);
}

#[test]
fn release_when_idle_is_harmless() {
    let mut s = fresh();
    s.dispatch(Event::ButtonRelease { button: 1 });
    assert!(!s.dragging);
    assert_eq!(s.ui.volume, 50);
    assert_eq!(s.ui.brightness, 50);
}

#[test]
fn motion_into_brightness_hovers_it() {
    let mut s = fresh();
    let r = s.brightness_area;
    assert!(s.dispatch(Event::Motion { x: r.x + 20, y: r.y + 5 }));
    assert!(s.ui.brightness_hovered);
    assert!(!s.ui.volume_hovered);
}

#[test]
fn motion_elsewhere_clears_hover() {
    let mut s = fresh();
    let r = s.volume_area;
    s.dispatch(Event::Motion { x: r.x + 20, y: r.y + 5 });
    assert!(s.ui.volume_hovered);
    assert!(s.dispatch(Event::Motion { x: 1, y: 1 }));
    assert!(!s.ui.volume_hovered && !s.ui.brightness_hovered);
}

#[test]
fn drag_follows_pointer_and_clamps() {
    let mut s = fresh();
    let r = s.volume_area;
    s.dispatch(Event::ButtonPress { button: 1, x: r.x + 10, y: r.y + 10 });
    assert!(s.dispatch(Event::Motion { x: r.x + 210, y: 0 }));
    assert_eq!(s.ui.volume, 50);
    s.dispatch(Event::Motion { x: r.x - 100, y: 500 });
    assert_eq!(s.ui.volume, 0);
    s.dispatch(Event::Motion { x: r.x + r.width + 100, y: 500 });
    assert_eq!(s.ui.volume, 100);
    assert_eq!(s.ui.brightness, 50);
    assert!(!s.ui.volume_hovered && !s.ui.brightness_hovered);
}

#[test]
fn drag_of_brightness_leaves_volume() {
    let mut s = fresh();
    let b = s.brightness_area;
    s.dispatch(Event::ButtonPress { button: 1, x: b.x, y: b.y });
    assert_eq!(s.ui.brightness, 0);
    s.dispatch(Event::Motion { x: b.x + 315, y: s.volume_area.y + 5 });
    assert_eq!(s.ui.brightness, 75);
    assert_eq!(s.ui.volume, 50);
    assert!(!s.ui.volume_hovered);
}

#[test]
fn flags_stay_exclusive_over_a_sequence() {
    let mut s = fresh();
    let v = s.volume_area;
    let b = s.brightness_area;
    let events = vec![
        Event::Motion { x: v.x + 3, y: v.y + 3 },
        Event::ButtonPress { button: 1, x: v.x + 3, y: v.y + 3 },
        Event::Motion { x: b.x + 3, y: b.y + 3 },
        Event::ButtonPress { button: 1, x: b.x + 3, y: b.y + 3 },
        Event::Motion { x: v.x + 3, y: v.y + 3 },
        Event::ButtonRelease { button: 1 },
        Event::Motion { x: b.x + 3, y: b.y + 3 },
        Event::KeyPress { keycode: 38 },
        Event::Expose,
        Event::Other,
    ];
    for e in events {
        s.dispatch(e);
        let u = &s.ui;
        assert!(!(u.volume_hovered && u.volume_pressed));
        assert!(!(u.brightness_hovered && u.brightness_pressed));
        assert!(!(u.volume_pressed && u.brightness_pressed));
        assert!(!(u.volume_hovered && u.brightness_hovered));
        assert_eq!(s.dragging, u.volume_pressed || u.brightness_pressed);
        assert!(u.volume <= 100 && u.brightness <= 100);
    }
    assert!(s.ui.brightness_hovered);
}

#[test]
fn expose_redraws_and_keys_do_not() {
    let mut s = fresh();
    assert!(s.dispatch(Event::Expose));
    assert!(!s.dispatch(Event::KeyPress { keycode: 24 }));
    assert!(!s.dispatch(Event::Other));
    assert_eq!(s.ui.volume, 50);
}

#[test]
fn decode_maps_each_response_type() {
    assert_eq!(Event::decode(12, 0, 0, 0), Event::Expose);
    assert_eq!(Event::decode(2, 38, 0, 0), Event::KeyPress { keycode: 38 });
    assert_eq!(
        Event::decode(4, 1, 700, 1000),
        Event::ButtonPress { button: 1, x: 76, y: 60 }
    );
    assert_eq!(Event::decode(5, 1, 700, 1000), Event::ButtonRelease { button: 1 });
    assert_eq!(Event::decode(6, 0, 0, 0), Event::Motion { x: -624, y: -940 });
    assert_eq!(Event::decode(33, 0, 0, 0), Event::Other);
}

#[test]
fn render_twice_gives_same_frame() {
    let s = fresh();
    assert_eq!(render(&s.ui), render(&s.ui));
}

#[test]
fn render_layout() {
    let s = fresh();
    let frame = render(&s.ui);
    assert_eq!(frame.len(), 9);
    let panel = Color { r: 300, g: 300, b: 300, a: 1000 };
    assert_eq!(
        frame[0],
        Shape::Fill(RoundedBox { x: 400, y: 12400, width: 21600, height: 11200, radius: 600, color: panel })
    );
    assert_eq!(
        frame[2],
        Shape::Fill(RoundedBox {
            x: 23800,
            y: 19400,
            width: 21000,
            height: 3200,
            radius: 600,
            color: Color { r: 1000, g: 300, b: 300, a: 600 },
        })
    );
    assert_eq!(
        frame[7],
        Shape::Text(Label {
            source: TextSource::Time,
            size: 50,
            center_x: 112,
            center_y: 170,
            color: Color { r: 1000, g: 1000, b: 1000, a: 1000 },
        })
    );
    match frame[8] {
        Shape::Text(l) => assert_eq!(l.source, TextSource::Date),
        _ => panic!("expected the date label"),
    }
}

#[test]
fn render_fill_color_precedence() {
    let mut s = fresh();
    let v = s.volume_area;
    s.dispatch(Event::Motion { x: v.x + 1, y: v.y + 1 });
    match render(&s.ui)[2] {
        Shape::Fill(b) => assert_eq!(b.color, Color { r: 1000, g: 300, b: 300, a: 1000 }),
        _ => panic!("expected the volume bar"),
    }
    s.dispatch(Event::ButtonPress { button: 1, x: v.x + 1, y: v.y + 1 });
    match render(&s.ui)[2] {
        Shape::Fill(b) => assert_eq!(b.color, Color { r: 900, g: 200, b: 200, a: 1000 }),
        _ => panic!("expected the volume bar"),
    }
    let mut u = UiState::new(&sample_time());
    u.brightness_hovered = true;
    u.brightness = 100;
    match render(&u)[4] {
        Shape::Fill(b) => {
            assert_eq!(b.color, Color { r: 1000, g: 1000, b: 300, a: 1000 });
            assert_eq!(b.width, 42000);
            assert_eq!(b.x, 23800);
        }
        _ => panic!("expected the brightness bar"),
    }
}

#[test]
fn empty_bar_has_no_width_or_radius() {
    let c = Color { r: 0, g: 0, b: 0, a: 1000 };
    let b = inset(0, 0, 0, 6000, 600, 1400, c);
    assert_eq!(b.width, 0);
    assert_eq!(b.radius, 0);
    let b = inset(100, 100, 3200, 6000, 600, 1400, c);
    assert_eq!(b.width, 400);
    assert_eq!(b.radius, 400);
    assert_eq!(b.x, 1500);
    assert_eq!(b.height, 3200);
}

#[test]
fn quarter_press_fills_a_quarter_of_the_slider() {
    let mut s = fresh();
    let v = s.volume_area;
    s.dispatch(Event::ButtonPress { button: 1, x: v.x + v.width / 4, y: v.y + 16 });
    match render(&s.ui)[2] {
        Shape::Fill(b) => {
            assert_eq!(b.x, v.x * 100);
            assert_eq!(b.x + b.width, (v.x + v.width / 4) * 100);
            assert_eq!(b.color, Color { r: 900, g: 200, b: 200, a: 1000 });
        }
        _ => panic!("expected the volume bar"),
    }
}

#[test]
fn full_slider_fills_the_slider_area() {
    let mut u = UiState::new(&sample_time());
    u.volume = 100;
    let v = Rect::volume_slider();
    match render(&u)[2] {
        Shape::Fill(b) => {
            assert_eq!(b.x, v.x * 100);
            assert_eq!(b.width, v.width * 100);
            assert_eq!(b.y, v.y * 100);
            assert_eq!(b.height, v.height * 100);
        }
        _ => panic!("expected the volume bar"),
    }
}

#[test]
fn inset_handles_negative_and_large_inputs() {
    let c = Color { r: 0, g: 0, b: 0, a: 1000 };
    let b = inset(-5000, -200, 3000, 2000, 600, 400, c);
    assert_eq!(b.x, -4600);
    assert_eq!(b.y, 200);
    assert_eq!(b.width, 2200);
    assert_eq!(b.height, 1200);
    assert_eq!(b.radius, 600);
    let b = inset(2_000_000_000, 0, 2_000_000_000, 100, 600, 10, c);
    assert_eq!(b.x, 2_000_000_010);
    assert_eq!(b.width, 1_999_999_980);
    assert_eq!(b.radius, 600);
    let b = inset(0, 0, 100, 100, 50, -10, c);
    assert_eq!(b.x, -10);
    assert_eq!(b.width, 120);
    assert_eq!(b.radius, 50);
}

#[test]
fn clock_texts_use_the_patterns() {
    let t = sample_time();
    assert_eq!(t.time_text(), "9:05");
    assert_eq!(t.date_text(), "Tue, Mar 4 2025");
    let t = LocalTime { year: 2024, month: 12, day: 25, hour: 23, minute: 59 };
    assert_eq!(t.time_text(), "23:59");
    assert_eq!(t.date_text(), "Wed, Dec 25 2024");
}

#[test]
fn clock_due_after_one_second() {
    assert!(!clock_due(0, 1000));
    assert!(clock_due(0, 1001));
    assert!(!clock_due(5000, 10));
    assert!(clock_due(2000, 3500));
}

#[test]
fn refresh_clock_updates_text_when_due() {
    let mut s = fresh();
    let later = LocalTime { year: 2025, month: 3, day: 5, hour: 0, minute: 0 };
    assert!(!s.refresh_clock(&later, 900));
    assert_eq!(s.ui.time, "9:05");
    assert!(s.refresh_clock(&later, 1200));
    assert_eq!(s.ui.time, "0:00");
    assert_eq!(s.ui.date, "Wed, Mar 5 2025");
    assert_eq!(s.last_refresh_ms, 1200);
    assert_eq!(s.ui.volume, 50);
}

#[test]
fn tick_forces_one_redraw_per_second_without_input() {
    let mut s = fresh();
    assert!(!s.tick(1000));
    assert_eq!(s.ui.time, "9:05");
    let mut redraws = 0;
    if s.tick(1001) {
        redraws += 1;
    }
    let no_events: Vec<Event> = Vec::new();
    for e in no_events {
        if s.dispatch(e) {
            redraws += 1;
        }
    }
    assert_eq!(redraws, 1);
    assert!(s.ui.time.contains(':'));
    assert!(!s.ui.date.is_empty());
    assert_eq!(s.last_refresh_ms, 1001);
    assert!(!s.tick(1500));
}

#[test]
fn start_reads_the_wall_clock() {
    let s = Session::start(0);
    assert!(s.ui.time.contains(':'));
    assert!(s.ui.date.contains(", "));
    assert_eq!(s.ui.volume, 50);
}

#[test]
fn frame_sleep_fills_the_budget() {
    assert_eq!(FRAME_MICROS, 16667);
    assert_eq!(frame_sleep_micros(0), 16667);
    assert_eq!(frame_sleep_micros(10000), 6667);
    assert_eq!(frame_sleep_micros(16667), 0);
    assert_eq!(frame_sleep_micros(50000), 0);
}
