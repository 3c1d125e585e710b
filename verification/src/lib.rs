//! Unix-specific extensions for a cross-platform windowing facade.
//!
//! A single handle type (window, event loop, event-loop target) wraps exactly
//! one of several mutually exclusive display-server backends (X11 or Wayland).
//! This crate provides:
//!
//! - a scancode translator between a platform-neutral key-code enumeration and
//!   the raw evdev-style numeric scancode space, total over all 32-bit codes;
//! - native-handle accessors that dispatch on the handle's backend variant and
//!   return the backend's native resource handle, or `None` when the handle's
//!   active backend differs from the one queried;
//! - builder extensions that accumulate platform-specific window-construction
//!   options (window class, override-redirect, window-type hints, application
//!   id, and so on) onto a window builder;
//! - a theme capability interface queried by the Wayland client-side
//!   decoration renderer.
//!
//! Native resource handles (display pointers, surface pointers, window ids)
//! are carried as plain numeric values. They are borrowed views into memory
//! owned by the backend payload: a handle becomes invalid the instant the
//! owning window or event-loop target is destroyed, and callers must not
//! retain one past that point.

pub mod backend;
pub mod builder;
pub mod event_loop;
pub mod keycode;
pub mod monitor;
pub mod theme;
pub mod window;
