//! Event loop and event-loop target handles, with backend-variant dispatch.
//!
//! Every handle wraps exactly one backend payload; the active variant is
//! fixed at construction time and never changes for the lifetime of the
//! handle. Each accessor switches on the variant tag: it returns a present
//! value when the active variant matches the backend it targets, and an
//! absent value otherwise — an expected, recoverable outcome, not a failure.

use vstd::prelude::*;

use crate::backend::{XConnection, XNotSupported};

verus! {

/// The backend payload of an event loop or event-loop target: exactly one
/// variant per supported display-server backend.
#[derive(Clone, Copy, Debug, PartialEq, Eq, Structural)]
pub enum BackendEventLoop {
    /// X11 event dispatch context, holding the shared server connection.
    X { connection: XConnection },
    /// Wayland event dispatch context; `display` is the native handle of the
    /// `wl_display` the context was created on.
    Wayland { display: usize },
}

/// A target for event dispatch: the part of an event loop that windows are
/// created against.
#[derive(Clone, Copy, Debug, PartialEq, Eq, Structural)]
pub struct EventLoopWindowTarget {
    /// The backend payload this target wraps.
    pub p: BackendEventLoop,
}

/// An event loop wrapping one backend dispatch context.
#[derive(Clone, Copy, Debug, PartialEq, Eq, Structural)]
pub struct EventLoop {
    /// The backend payload this event loop wraps.
    pub event_loop: BackendEventLoop,
}

impl EventLoopWindowTarget {
    /// Whether the active backend variant is Wayland.
    pub open spec fn spec_is_wayland(self) -> bool {
        self.p is Wayland
    }

    /// The X connection this target holds, when its backend is X11.
    pub open spec fn spec_xlib_xconnection(self) -> Option<XConnection> {
        match self.p {
            BackendEventLoop::X { connection } => Some(connection),
            BackendEventLoop::Wayland { .. } => None,
        }
    }

    /// The native `wl_display` handle, when the backend is Wayland.
    pub open spec fn spec_wayland_display(self) -> Option<usize> {
        match self.p {
            BackendEventLoop::X { .. } => None,
            BackendEventLoop::Wayland { display } => Some(display),
        }
    }
}

/// Additional methods on an event-loop target that are specific to Unix.
pub trait EventLoopWindowTargetExtUnix {
    /// True if the target uses Wayland.
    fn is_wayland(&self) -> bool;

    /// True if the target uses X11.
    fn is_x11(&self) -> bool;

    /// Returns the shared connection to the X server used by this target.
    ///
    /// Returns `None` if the target doesn't use X11 (if it uses Wayland for
    /// example).
    fn xlib_xconnection(&self) -> Option<XConnection>;

    /// Returns the native handle of the `wl_display` used by this target.
    ///
    /// Returns `None` if the target doesn't use Wayland (if it uses xlib for
    /// example). The handle becomes invalid when the event loop is
    /// destroyed; callers must not retain it past that point.
    fn wayland_display(&self) -> Option<usize>;
}

impl EventLoopWindowTargetExtUnix for EventLoopWindowTarget {
    fn is_wayland(&self) -> (r: bool)
        ensures
            r == self.spec_is_wayland(),
    {
        match self.p {
            BackendEventLoop::Wayland { .. } => true,
            BackendEventLoop::X { .. } => false,
        }
    }

    fn is_x11(&self) -> (r: bool)
        ensures
            r == !self.spec_is_wayland(),
    {
        match self.p {
            BackendEventLoop::X { .. } => true,
            BackendEventLoop::Wayland { .. } => false,
        }
    }

    fn xlib_xconnection(&self) -> (r: Option<XConnection>)
        ensures
            r == self.spec_xlib_xconnection(),
            r is Some <==> !self.spec_is_wayland(),
    {
        match self.p {
            BackendEventLoop::X { connection } => Some(connection),
            BackendEventLoop::Wayland { .. } => None,
        }
    }

    fn wayland_display(&self) -> (r: Option<usize>)
        ensures
            r == self.spec_wayland_display(),
            r is Some <==> self.spec_is_wayland(),
    {
        match self.p {
            BackendEventLoop::X { .. } => None,
            BackendEventLoop::Wayland { display } => Some(display),
        }
    }
}

/// Wraps a backend dispatch context into a platform-neutral event loop.
pub fn wrap_ev(event_loop: BackendEventLoop) -> (r: EventLoop)
    ensures
        r.event_loop == event_loop,
{
    EventLoop { event_loop }
}

/// Additional constructors on an event loop that are specific to Unix.
///
/// The environment's offerings are passed in as values: an X11 constructor
/// receives the connection the environment could open (or `None` when the X
/// server is not reachable), a Wayland constructor the native handle of the
/// `wl_display` the environment could connect to. `on_main_thread` reports
/// whether the caller runs on the main thread: the plain constructors demand
/// it, while the `_any_thread` constructors bypass that requirement.
pub trait EventLoopExtUnix where Self: Sized {
    /// Builds a new event loop forced to use X11.
    ///
    /// Fails with a structured error when the X server is not reachable.
    /// Demands the main thread; to build an X11 event loop on another
    /// thread, use `new_x11_any_thread`.
    fn new_x11(connection: Option<XConnection>, on_main_thread: bool) -> Result<
        Self,
        XNotSupported,
    >
        requires
            on_main_thread,
    ;

    /// Builds a new event loop forced to use Wayland.
    ///
    /// Demands the main thread and a reachable Wayland display; there is no
    /// structured failure channel here, so an unreachable display must be
    /// ruled out by the caller beforehand. To build a Wayland event loop on
    /// another thread, use `new_wayland_any_thread`.
    fn new_wayland(display: Option<usize>, on_main_thread: bool) -> Self
        requires
            on_main_thread,
            display is Some,
    ;

    /// Builds a new event loop on whichever backend the environment offers,
    /// on any thread.
    fn new_any_thread(backend: BackendEventLoop) -> Self;

    /// Builds a new X11 event loop on any thread.
    ///
    /// Fails with a structured error when the X server is not reachable.
    fn new_x11_any_thread(connection: Option<XConnection>) -> Result<Self, XNotSupported>;

    /// Builds a new Wayland event loop on any thread.
    ///
    /// The caller must rule out an unreachable Wayland display beforehand;
    /// see `new_wayland`.
    fn new_wayland_any_thread(display: Option<usize>) -> Self
        requires
            display is Some,
    ;
}

impl EventLoopExtUnix for EventLoop {
    fn new_x11(connection: Option<XConnection>, on_main_thread: bool) -> (r: Result<
        Self,
        XNotSupported,
    >)
        ensures
            r matches Ok(ev) ==> connection matches Some(c) && ev.event_loop == (
            BackendEventLoop::X { connection: c }),
            r is Ok <==> connection is Some,
            r matches Err(e) ==> e == XNotSupported::XOpenDisplayFailed,
    {
        match connection {
            Some(c) => Ok(wrap_ev(BackendEventLoop::X { connection: c })),
            None => Err(XNotSupported::XOpenDisplayFailed),
        }
    }

    fn new_wayland(display: Option<usize>, on_main_thread: bool) -> (r: Self)
        ensures
            display matches Some(d) ==> r.event_loop == (BackendEventLoop::Wayland {
                display: d,
            }),
    {
        match display {
            Some(d) => wrap_ev(BackendEventLoop::Wayland { display: d }),
            None => unreached(),
        }
    }

    fn new_any_thread(backend: BackendEventLoop) -> (r: Self)
        ensures
            r.event_loop == backend,
    {
        wrap_ev(backend)
    }

    fn new_x11_any_thread(connection: Option<XConnection>) -> (r: Result<Self, XNotSupported>)
        ensures
            r matches Ok(ev) ==> connection matches Some(c) && ev.event_loop == (
            BackendEventLoop::X { connection: c }),
            r is Ok <==> connection is Some,
            r matches Err(e) ==> e == XNotSupported::XOpenDisplayFailed,
    {
        match connection {
            Some(c) => Ok(wrap_ev(BackendEventLoop::X { connection: c })),
            None => Err(XNotSupported::XOpenDisplayFailed),
        }
    }

    fn new_wayland_any_thread(display: Option<usize>) -> (r: Self)
        ensures
            display matches Some(d) ==> r.event_loop == (BackendEventLoop::Wayland {
                display: d,
            }),
    {
        match display {
            Some(d) => wrap_ev(BackendEventLoop::Wayland { display: d }),
            None => unreached(),
        }
    }
}

/// On any event-loop target, exactly one backend's accessors answer: the X
/// connection is present precisely when the target is X11, the Wayland
/// display precisely when it is Wayland, and never both.
pub proof fn lemma_target_accessors_exclusive(t: EventLoopWindowTarget)
    ensures
        t.spec_xlib_xconnection() is Some <==> !t.spec_is_wayland(),
        t.spec_wayland_display() is Some <==> t.spec_is_wayland(),
        !(t.spec_xlib_xconnection() is Some && t.spec_wayland_display() is Some),
{
}

} // verus!
