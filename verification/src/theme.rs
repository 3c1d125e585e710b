//! Theme capability for Wayland client-side decorations.
//!
//! A theme is a caller-supplied policy object queried by the decoration
//! renderer whenever decoration colors or fonts must be recomputed (focus
//! change, pointer hover change, repaint). It is a pure query interface with
//! no state machine of its own.

use vstd::prelude::*;

verus! {

/// A button on the client-side decorations.
#[derive(Clone, Copy, Debug, PartialEq, Eq, Structural)]
pub enum Button {
    /// Button that maximizes the window.
    Maximize,
    /// Button that minimizes the window.
    Minimize,
    /// Button that closes the window.
    Close,
}

/// The state of a button on the client-side decorations.
#[derive(Clone, Copy, Debug, PartialEq, Eq, Structural)]
pub enum ButtonState {
    /// Button is being hovered over by the pointer.
    Hovered,
    /// Button is not being hovered over by the pointer.
    Idle,
    /// Button is disabled.
    Disabled,
}

/// An element of the client-side decorations.
#[derive(Clone, Copy, Debug, PartialEq, Eq, Structural)]
pub enum Element {
    /// The bar itself.
    Bar,
    /// Separator between window and title bar.
    Separator,
    /// Title bar text.
    Text,
}

/// A color in ARGB order, one byte per channel.
#[derive(Clone, Copy, Debug, PartialEq, Eq, Structural)]
pub struct ARGBColor {
    pub a: u8,
    pub r: u8,
    pub g: u8,
    pub b: u8,
}

/// A theme for Wayland client-side decorations.
///
/// The renderer invokes these queries from its own dedicated thread,
/// concurrently with whatever the caller does with the same object; an
/// implementing type must therefore be safely shareable across threads
/// (`Send`) and must outlive the decoration surface (`'static`).
pub trait Theme: Send + 'static {
    /// Color for a title-bar element, cross-referenced with whether the
    /// window currently has focus.
    fn element_color(&self, element: Element, window_active: bool) -> ARGBColor;

    /// Color for one layer (foreground or background) of a decoration
    /// button in a given state.
    fn button_color(
        &self,
        button: Button,
        state: ButtonState,
        foreground: bool,
        window_active: bool,
    ) -> ARGBColor;

    /// Font name and size for the title bar text.
    ///
    /// Returning `None` suppresses title rendering. A conventional choice is
    /// the pair returned by [`default_title_font`].
    fn font(&self) -> Option<(String, u32)>;
}

/// The conventional title font: `sans-serif` at size 17.
pub fn default_title_font() -> (r: (String, u32))
    ensures
        r.0@ == "sans-serif"@,
        r.1 == 17,
{
    ("sans-serif".to_owned(), 17)
}

} // verus!
