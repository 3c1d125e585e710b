//! Backend connection model and structured failures.
//!
//! The connection to the X server is shared by potentially many windows and
//! event-loop targets; its native pointers are modelled as plain numeric
//! handles owned by the backend. A handle taken out of a connection is a
//! borrowed view: it becomes invalid when the last holder of the connection
//! is destroyed.

use vstd::prelude::*;

verus! {

/// A client's connection to the X server.
///
/// Shared by every window and event-loop target created on it; the underlying
/// OS resource is released when the last holder drops its copy. The fields
/// are the native handles the backend owns, carried as plain numeric values.
#[derive(Clone, Copy, Debug, PartialEq, Eq, Structural)]
pub struct XConnection {
    /// Native handle of the xlib `Display` this connection wraps.
    pub display: usize,
    /// Native handle of the `xcb_connection_t` underlying the display.
    pub xcb: usize,
}

/// Structured failure of an X11 constructor: the X server could not be
/// reached when an X11 backend was explicitly requested.
#[derive(Clone, Copy, Debug, PartialEq, Eq, Structural)]
pub enum XNotSupported {
    /// Opening the X display failed (no server reachable).
    XOpenDisplayFailed,
}

impl XNotSupported {
    /// A human-readable description of the failure.
    pub fn message(&self) -> (r: &'static str)
        ensures
            r@ == "X server not reachable: XOpenDisplay failed"@,
    {
        "X server not reachable: XOpenDisplay failed"
    }
}

} // verus!
