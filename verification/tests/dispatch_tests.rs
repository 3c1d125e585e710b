use unix_ext::backend::{XConnection, XNotSupported};
use unix_ext::event_loop::{
    wrap_ev, BackendEventLoop, EventLoop, EventLoopExtUnix, EventLoopWindowTarget,
    EventLoopWindowTargetExtUnix,
};
use unix_ext::monitor::{MonitorHandle, MonitorHandleExtUnix, MonitorId};
use unix_ext::theme::{ARGBColor, Button, ButtonState, Element, Theme};
use unix_ext::window::{BackendWindow, WaylandWindow, Window, WindowExtUnix, XWindow};

fn x_connection() -> XConnection {
    XConnection {
        display: 0x7000,
        xcb: 0x7100,
    }
}

fn x_window() -> Window {
    Window {
        window: BackendWindow::X(XWindow {
            xwindow: 42,
            screen_id: 3,
            connection: x_connection(),
        }),
    }
}

fn wayland_window() -> Window {
    Window {
        window: BackendWindow::Wayland(WaylandWindow {
            surface: 0x8000,
            display: 0x8100,
            themed: false,
        }),
    }
}

#[test]
fn x11_window_answers_only_x11_accessors() {
    let w = x_window();
    assert_eq!(w.xlib_window(), Some(42));
    assert_eq!(w.xlib_display(), Some(0x7000));
    assert_eq!(w.xlib_screen_id(), Some(3));
    assert_eq!(w.xlib_xconnection(), Some(x_connection()));
    assert_eq!(w.xcb_connection(), Some(0x7100));
    assert_eq!(w.wayland_surface(), None);
    assert_eq!(w.wayland_display(), None);
}

#[test]
fn wayland_window_answers_only_wayland_accessors() {
    let w = wayland_window();
    assert_eq!(w.wayland_surface(), Some(0x8000));
    assert_eq!(w.wayland_display(), Some(0x8100));
    assert_eq!(w.xlib_window(), None);
    assert_eq!(w.xlib_display(), None);
    assert_eq!(w.xlib_screen_id(), None);
    assert_eq!(w.xlib_xconnection(), None);
    assert_eq!(w.xcb_connection(), None);
}

#[test]
fn x11_target_answers_only_x11_accessors() {
    let t = EventLoopWindowTarget {
        p: BackendEventLoop::X {
            connection: x_connection(),
        },
    };
    assert!(t.is_x11());
    assert!(!t.is_wayland());
    assert_eq!(t.xlib_xconnection(), Some(x_connection()));
    assert_eq!(t.wayland_display(), None);
}

#[test]
fn wayland_target_answers_only_wayland_accessors() {
    let t = EventLoopWindowTarget {
        p: BackendEventLoop::Wayland { display: 0x9000 },
    };
    assert!(t.is_wayland());
    assert!(!t.is_x11());
    assert_eq!(t.wayland_display(), Some(0x9000));
    assert_eq!(t.xlib_xconnection(), None);
}

#[test]
fn wrap_ev_keeps_the_payload() {
    let ev = wrap_ev(BackendEventLoop::Wayland { display: 0x9000 });
    assert_eq!(
        ev.event_loop,
        BackendEventLoop::Wayland { display: 0x9000 }
    );
}

#[test]
fn new_x11_succeeds_on_reachable_server() {
    let ev = EventLoop::new_x11(Some(x_connection()), true).unwrap();
    assert_eq!(
        ev.event_loop,
        BackendEventLoop::X {
            connection: x_connection()
        }
    );
}

#[test]
fn new_x11_fails_on_unreachable_server() {
    let r = EventLoop::new_x11(None, true);
    assert_eq!(r.unwrap_err(), XNotSupported::XOpenDisplayFailed);
}

#[test]
fn new_x11_any_thread_mirrors_new_x11() {
    let ev = EventLoop::new_x11_any_thread(Some(x_connection())).unwrap();
    assert_eq!(
        ev.event_loop,
        BackendEventLoop::X {
            connection: x_connection()
        }
    );
    let r = EventLoop::new_x11_any_thread(None);
    assert_eq!(r.unwrap_err(), XNotSupported::XOpenDisplayFailed);
}

#[test]
fn new_wayland_wraps_the_display() {
    let ev = EventLoop::new_wayland(Some(0x9000), true);
    assert_eq!(
        ev.event_loop,
        BackendEventLoop::Wayland { display: 0x9000 }
    );
    let ev = EventLoop::new_wayland_any_thread(Some(0x9100));
    assert_eq!(
        ev.event_loop,
        BackendEventLoop::Wayland { display: 0x9100 }
    );
}

#[test]
fn new_any_thread_wraps_whatever_the_environment_offers() {
    let ev = EventLoop::new_any_thread(BackendEventLoop::X {
        connection: x_connection(),
    });
    assert_eq!(
        ev.event_loop,
        BackendEventLoop::X {
            connection: x_connection()
        }
    );
}

#[test]
fn x_not_supported_message_names_the_failure() {
    let e = XNotSupported::XOpenDisplayFailed;
    assert_eq!(e.message(), "X server not reachable: XOpenDisplay failed");
}

#[test]
fn monitor_native_id_is_stable_across_calls() {
    let m = MonitorHandle {
        inner: MonitorId { id: 7 },
    };
    let first = m.native_id();
    let second = m.native_id();
    assert_eq!(first, 7);
    assert_eq!(first, second);
}

struct PlainTheme;

impl Theme for PlainTheme {
    fn element_color(&self, _element: Element, _window_active: bool) -> ARGBColor {
        ARGBColor {
            a: 255,
            r: 16,
            g: 16,
            b: 16,
        }
    }

    fn button_color(
        &self,
        _button: Button,
        _state: ButtonState,
        _foreground: bool,
        _window_active: bool,
    ) -> ARGBColor {
        ARGBColor {
            a: 255,
            r: 200,
            g: 0,
            b: 0,
        }
    }

    fn font(&self) -> Option<(String, u32)> {
        Some(unix_ext::theme::default_title_font())
    }
}

#[test]
fn set_wayland_theme_marks_a_wayland_window() {
    let mut w = wayland_window();
    w.set_wayland_theme(PlainTheme);
    match w.window {
        BackendWindow::Wayland(inner) => {
            assert!(inner.themed);
            assert_eq!(inner.surface, 0x8000);
            assert_eq!(inner.display, 0x8100);
        }
        BackendWindow::X(_) => panic!("backend variant changed"),
    }
}

#[test]
fn set_wayland_theme_leaves_an_x11_window_unchanged() {
    let mut w = x_window();
    w.set_wayland_theme(PlainTheme);
    assert_eq!(w, x_window());
}

#[test]
fn default_title_font_is_sans_serif_17() {
    let (name, size) = unix_ext::theme::default_title_font();
    assert_eq!(name, "sans-serif");
    assert_eq!(size, 17);
}

#[test]
fn theme_queries_answer_per_element_and_button() {
    let t = PlainTheme;
    let bar = t.element_color(Element::Bar, true);
    assert_eq!(bar, t.element_color(Element::Separator, false));
    let close = t.button_color(Button::Close, ButtonState::Hovered, true, true);
    assert_eq!(close.r, 200);
    assert_eq!(t.font(), Some((String::from("sans-serif"), 17)));
}
