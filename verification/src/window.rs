//! Window handles, with backend-variant dispatch over native accessors.
//!
//! A window owns exactly one backend payload; the active variant is fixed at
//! construction time and never changes. Every accessor is a pure read that
//! switches on the variant tag and returns the queried backend's native
//! resource handle, or `None` when the window's active backend differs from
//! the one queried. Returned native handles are borrowed views into memory
//! owned by the backend payload: they become invalid the instant the window
//! is destroyed, and callers must not retain them past that point.

use vstd::prelude::*;

use crate::backend::XConnection;
use crate::theme::Theme;

verus! {

/// The X11 backend's window payload.
#[derive(Clone, Copy, Debug, PartialEq, Eq, Structural)]
pub struct XWindow {
    /// The xlib window ID.
    pub xwindow: u64,
    /// The xlib screen the window was created on.
    pub screen_id: i32,
    /// The shared connection to the X server the window was created on.
    pub connection: XConnection,
}

/// The Wayland backend's window payload.
#[derive(Clone, Copy, Debug, PartialEq, Eq, Structural)]
pub struct WaylandWindow {
    /// Native handle of the window's `wl_surface`.
    pub surface: usize,
    /// Native handle of the `wl_display` the surface was created on.
    pub display: usize,
    /// Whether a client-side decoration theme has been installed.
    pub themed: bool,
}

/// The backend payload of a window: exactly one variant per supported
/// display-server backend.
#[derive(Clone, Copy, Debug, PartialEq, Eq, Structural)]
pub enum BackendWindow {
    /// A window on the X11 backend.
    X(XWindow),
    /// A window on the Wayland backend.
    Wayland(WaylandWindow),
}

/// A platform-neutral window handle wrapping one backend window.
#[derive(Clone, Copy, Debug, PartialEq, Eq, Structural)]
pub struct Window {
    /// The backend payload this window wraps.
    pub window: BackendWindow,
}

impl Window {
    /// Whether the active backend variant is X11.
    pub open spec fn spec_is_x11(self) -> bool {
        self.window is X
    }

    /// The xlib window ID, when the backend is X11.
    pub open spec fn spec_xlib_window(self) -> Option<u64> {
        match self.window {
            BackendWindow::X(w) => Some(w.xwindow),
            BackendWindow::Wayland(_) => None,
        }
    }

    /// The native xlib `Display` handle, when the backend is X11.
    pub open spec fn spec_xlib_display(self) -> Option<usize> {
        match self.window {
            BackendWindow::X(w) => Some(w.connection.display),
            BackendWindow::Wayland(_) => None,
        }
    }

    /// The xlib screen ID, when the backend is X11.
    pub open spec fn spec_xlib_screen_id(self) -> Option<i32> {
        match self.window {
            BackendWindow::X(w) => Some(w.screen_id),
            BackendWindow::Wayland(_) => None,
        }
    }

    /// The shared X connection, when the backend is X11.
    pub open spec fn spec_xlib_xconnection(self) -> Option<XConnection> {
        match self.window {
            BackendWindow::X(w) => Some(w.connection),
            BackendWindow::Wayland(_) => None,
        }
    }

    /// The native `xcb_connection_t` handle, when the backend is X11.
    pub open spec fn spec_xcb_connection(self) -> Option<usize> {
        match self.window {
            BackendWindow::X(w) => Some(w.connection.xcb),
            BackendWindow::Wayland(_) => None,
        }
    }

    /// The native `wl_surface` handle, when the backend is Wayland.
    pub open spec fn spec_wayland_surface(self) -> Option<usize> {
        match self.window {
            BackendWindow::X(_) => None,
            BackendWindow::Wayland(w) => Some(w.surface),
        }
    }

    /// The native `wl_display` handle, when the backend is Wayland.
    pub open spec fn spec_wayland_display(self) -> Option<usize> {
        match self.window {
            BackendWindow::X(_) => None,
            BackendWindow::Wayland(w) => Some(w.display),
        }
    }
}

/// Additional methods on a window that are specific to Unix.
pub trait WindowExtUnix {
    /// Returns the ID of the xlib window object used by this window.
    ///
    /// Returns `None` if the window doesn't use xlib (if it uses Wayland for
    /// example).
    fn xlib_window(&self) -> Option<u64>;

    /// Returns the native handle of the xlib `Display` used by this window.
    ///
    /// Returns `None` if the window doesn't use xlib. The handle becomes
    /// invalid when the window is destroyed.
    fn xlib_display(&self) -> Option<usize>;

    /// Returns the xlib screen ID of this window, or `None` if the window
    /// doesn't use xlib.
    fn xlib_screen_id(&self) -> Option<i32>;

    /// Returns the shared connection to the X server used by this window,
    /// or `None` if the window doesn't use xlib.
    fn xlib_xconnection(&self) -> Option<XConnection>;

    /// Returns the native handle of the `xcb_connection_t` underlying the
    /// xlib `Display` of this window.
    ///
    /// Returns `None` if the window doesn't use xlib. The handle becomes
    /// invalid when the window is destroyed.
    fn xcb_connection(&self) -> Option<usize>;

    /// Returns the native handle of the `wl_surface` used by this window.
    ///
    /// Returns `None` if the window doesn't use Wayland (if it uses xlib for
    /// example). The handle becomes invalid when the window is destroyed.
    fn wayland_surface(&self) -> Option<usize>;

    /// Returns the native handle of the `wl_display` used by this window.
    ///
    /// Returns `None` if the window doesn't use Wayland. The handle becomes
    /// invalid when the window is destroyed.
    fn wayland_display(&self) -> Option<usize>;

    /// Installs a color theme for the client-side decorations on Wayland.
    ///
    /// On any other backend the call is accepted and silently has no effect.
    fn set_wayland_theme<T: Theme>(&mut self, theme: T);
}

impl WindowExtUnix for Window {
    fn xlib_window(&self) -> (r: Option<u64>)
        ensures
            r == self.spec_xlib_window(),
            r is Some <==> self.spec_is_x11(),
    {
        match self.window {
            BackendWindow::X(w) => Some(w.xwindow),
            BackendWindow::Wayland(_) => None,
        }
    }

    fn xlib_display(&self) -> (r: Option<usize>)
        ensures
            r == self.spec_xlib_display(),
            r is Some <==> self.spec_is_x11(),
    {
        match self.window {
            BackendWindow::X(w) => Some(w.connection.display),
            BackendWindow::Wayland(_) => None,
        }
    }

    fn xlib_screen_id(&self) -> (r: Option<i32>)
        ensures
            r == self.spec_xlib_screen_id(),
            r is Some <==> self.spec_is_x11(),
    {
        match self.window {
            BackendWindow::X(w) => Some(w.screen_id),
            BackendWindow::Wayland(_) => None,
        }
    }

    fn xlib_xconnection(&self) -> (r: Option<XConnection>)
        ensures
            r == self.spec_xlib_xconnection(),
            r is Some <==> self.spec_is_x11(),
    {
        match self.window {
            BackendWindow::X(w) => Some(w.connection),
            BackendWindow::Wayland(_) => None,
        }
    }

    fn xcb_connection(&self) -> (r: Option<usize>)
        ensures
            r == self.spec_xcb_connection(),
            r is Some <==> self.spec_is_x11(),
    {
        match self.window {
            BackendWindow::X(w) => Some(w.connection.xcb),
            BackendWindow::Wayland(_) => None,
        }
    }

    fn wayland_surface(&self) -> (r: Option<usize>)
        ensures
            r == self.spec_wayland_surface(),
            r is Some <==> !self.spec_is_x11(),
    {
        match self.window {
            BackendWindow::X(_) => None,
            BackendWindow::Wayland(w) => Some(w.surface),
        }
    }

    fn wayland_display(&self) -> (r: Option<usize>)
        ensures
            r == self.spec_wayland_display(),
            r is Some <==> !self.spec_is_x11(),
    {
        match self.window {
            BackendWindow::X(_) => None,
            BackendWindow::Wayland(w) => Some(w.display),
        }
    }

    fn set_wayland_theme<T: Theme>(&mut self, _theme: T)
        ensures
            old(self).window matches BackendWindow::Wayland(w) ==> final(self).window == (
            BackendWindow::Wayland(WaylandWindow { themed: true, ..w })),
            old(self).window is X ==> *final(self) == *old(self),
    {
        match self.window {
            BackendWindow::Wayland(w) => {
                self.window = BackendWindow::Wayland(
                    WaylandWindow { surface: w.surface, display: w.display, themed: true },
                );
            },
            BackendWindow::X(_) => {},
        }
    }
}

/// On any window, exactly one backend's accessors answer: every X11 accessor
/// is present precisely when the window is X11, every Wayland accessor
/// precisely when it is Wayland, and no accessor of the other backend is
/// ever present at the same time.
pub proof fn lemma_window_accessors_exclusive(w: Window)
    ensures
        w.spec_xlib_window() is Some <==> w.spec_is_x11(),
        w.spec_xlib_display() is Some <==> w.spec_is_x11(),
        w.spec_xlib_screen_id() is Some <==> w.spec_is_x11(),
        w.spec_xlib_xconnection() is Some <==> w.spec_is_x11(),
        w.spec_xcb_connection() is Some <==> w.spec_is_x11(),
        w.spec_wayland_surface() is Some <==> !w.spec_is_x11(),
        w.spec_wayland_display() is Some <==> !w.spec_is_x11(),
        !(w.spec_xlib_window() is Some && w.spec_wayland_surface() is Some),
{
}

} // verus!
