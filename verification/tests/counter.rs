use mecha_wayland::counter::{
    initial_pointer, on_pointer, window_settings, Btn, Click, Counter, Hover, Message,
    PointerEvent, BG, BORDER, COUNT, HOT, IDLE, LABEL,
};
use mecha_wayland::damage::Damage;
use mecha_wayland::geometry::{Point, Rect};
use mecha_wayland::scene::RenderCommand;
use mecha_wayland::window::{ColorBits, WindowKind, WindowSettings};

fn placed() -> Counter {
    let mut c = Counter::new();
    c.dec.bounds = Rect::new(0, 0, 100, 100);
    c.inc.bounds = Rect::new(200, 0, 100, 100);
    c
}

const ON_DEC: Point = Point { x: 50, y: 50 };
const ON_INC: Point = Point { x: 250, y: 50 };
const BESIDE: Point = Point { x: 150, y: 50 };

#[test]
fn colours_are_those_of_the_theme() {
    let rgb = |r: u32, g: u32, b: u32| (r << 16) | (g << 8) | b;
    assert_eq!(BG, rgb(24, 24, 32));
    assert_eq!(IDLE, rgb(46, 52, 72));
    assert_eq!(HOT, rgb(74, 108, 170));
    assert_eq!(BORDER, rgb(120, 140, 190));
    assert_eq!(LABEL, rgb(220, 226, 240));
    assert_eq!(COUNT, rgb(240, 244, 255));
}

#[test]
fn a_new_counter_shows_zero() {
    let c = Counter::new();
    assert_eq!(c.count, 0);
    assert_eq!(c.number.text, "0");
    assert_eq!(c.number.color, COUNT);
    assert_eq!(c.hovered, None);
    assert_eq!((c.dec.label.text.as_str(), c.inc.label.text.as_str()), ("-", "+"));
    assert_eq!((c.dec.color, c.inc.color), (IDLE, IDLE));
    for b in [&c.dec, &c.inc] {
        assert_eq!((b.border_thickness, b.border_radius, b.border_color), (2, 16, BORDER));
        assert_eq!(b.label.color, LABEL);
    }
    assert_eq!(c.node_id, u64::MAX);
    assert!(c.is_opaque);
    let commands: Vec<RenderCommand<u8, u8, u8>> = c.render();
    assert!(commands.is_empty());
    assert_eq!(c.damage(), Damage::Unchanged);
}

#[test]
fn points_hit_the_button_they_are_on() {
    let c = placed();
    assert_eq!(c.hit(ON_DEC), Some(Btn::Dec));
    assert_eq!(c.hit(ON_INC), Some(Btn::Inc));
    assert_eq!(c.hit(BESIDE), None);
    assert_eq!(c.hit(Point::new(100, 100)), Some(Btn::Dec));
    let mut c = placed();
    c.inc.bounds = c.dec.bounds;
    assert_eq!(c.hit(ON_DEC), Some(Btn::Dec));
}

#[test]
fn hovering_heats_one_button() {
    let mut c = placed();
    c.change_hover(Hover(Some(ON_DEC)));
    assert_eq!((c.hovered, c.dec.color, c.inc.color), (Some(Btn::Dec), HOT, IDLE));
    c.change_hover(Hover(Some(ON_INC)));
    assert_eq!((c.hovered, c.dec.color, c.inc.color), (Some(Btn::Inc), IDLE, HOT));
    c.change_hover(Hover(Some(ON_INC)));
    assert_eq!((c.hovered, c.dec.color, c.inc.color), (Some(Btn::Inc), IDLE, HOT));
    c.change_hover(Hover(Some(BESIDE)));
    assert_eq!((c.hovered, c.dec.color, c.inc.color), (None, IDLE, IDLE));
    c.change_hover(Hover(Some(ON_DEC)));
    c.change_hover(Hover(None));
    assert_eq!((c.hovered, c.dec.color, c.inc.color), (None, IDLE, IDLE));
}

#[test]
fn hovering_outlasts_clicks() {
    let mut c = placed();
    c.change_hover(Hover(Some(ON_DEC)));
    c.change_click(Click(ON_INC));
    c.change_hover(Hover(Some(ON_INC)));
    c.change_click(Click(ON_DEC));
    c.change_click(Click(BESIDE));
    assert_eq!((c.hovered, c.dec.color, c.inc.color), (Some(Btn::Inc), IDLE, HOT));
    assert_eq!((c.count, c.number.text.as_str()), (0, "0"));
}

#[test]
fn clicks_count() {
    let mut c = placed();
    for _ in 0..12 {
        c.change_click(Click(ON_INC));
    }
    assert_eq!((c.count, c.number.text.as_str()), (12, "12"));
    c.change_click(Click(ON_DEC));
    assert_eq!((c.count, c.number.text.as_str()), (11, "11"));
    c.change_click(Click(BESIDE));
    assert_eq!((c.count, c.number.text.as_str()), (11, "11"));
}

#[test]
fn the_count_stops_at_zero() {
    let mut c = placed();
    c.change_click(Click(ON_DEC));
    assert_eq!((c.count, c.number.text.as_str()), (0, "0"));
}

#[test]
fn raising_and_lowering_cancel_out() {
    let mut c = placed();
    for _ in 0..3 {
        c.change_click(Click(ON_INC));
    }
    c.change_click(Click(ON_INC));
    c.change_click(Click(ON_DEC));
    assert_eq!(c.count, 3);
}

#[test]
fn pointer_events_become_messages() {
    let mut pointer = initial_pointer();
    assert_eq!(pointer, Point::new(-256, -256));
    let click = PointerEvent::Button { pressed: true, button: 0x110 };
    assert_eq!(on_pointer(&mut pointer, click), Some(Message::Click(Click(Point::new(-256, -256)))));
    let at = Point::new(1, 2);
    assert_eq!(
        on_pointer(&mut pointer, PointerEvent::Enter { at }),
        Some(Message::Hover(Hover(Some(at))))
    );
    let at = Point::new(3, 4);
    assert_eq!(
        on_pointer(&mut pointer, PointerEvent::Motion { at }),
        Some(Message::Hover(Hover(Some(at))))
    );
    assert_eq!(on_pointer(&mut pointer, PointerEvent::Leave), Some(Message::Hover(Hover(None))));
    assert_eq!(pointer, at);
    assert_eq!(on_pointer(&mut pointer, click), Some(Message::Click(Click(at))));
    let right = PointerEvent::Button { pressed: true, button: 0x111 };
    assert_eq!(on_pointer(&mut pointer, right), None);
    let release = PointerEvent::Button { pressed: false, button: 0x110 };
    assert_eq!(on_pointer(&mut pointer, release), None);
    assert_eq!(on_pointer(&mut pointer, PointerEvent::Other), None);
}

#[test]
fn the_counter_asks_for_an_xdg_window() {
    let color = ColorBits { r: 1, g: 2, b: 3, a: 4 };
    let s: WindowSettings<u8, u8> = window_settings(color);
    assert_eq!((s.width, s.height), (480, 240));
    assert_eq!(s.clear_color, color);
    assert!(matches!(s.kind, WindowKind::Xdg { title } if title == "counter"));
    assert_eq!((s.touch_config, s.gesture_config, s.color_texture), (None, None, false));
}
