//! Platform-specific window-construction options.
//!
//! Setters accumulate options onto a builder in fluent style: each takes the
//! builder by value, replaces exactly one field of the attached
//! platform-options record, and returns the builder. No validation happens
//! at set time; invalid values surface only when the backend-specific
//! constructor consumes the options. Setting an option the active backend
//! ignores (an X11-only field under Wayland, say) is accepted and silently
//! has no effect.

use vstd::prelude::*;

verus! {

/// A size hint in physical pixels.
#[derive(Clone, Copy, Debug, PartialEq, Eq, Structural)]
pub struct Size {
    pub width: u32,
    pub height: u32,
}

/// The fields of an X11 visual descriptor that window construction reads,
/// carried as plain values.
#[derive(Clone, Copy, Debug, PartialEq, Eq, Structural)]
pub struct XVisualInfo {
    /// The X server's identifier for the visual.
    pub visualid: u64,
    /// Color depth of the visual, in bits.
    pub depth: i32,
}

/// An X11 `_NET_WM_WINDOW_TYPE` hint.
#[derive(Clone, Copy, Debug, PartialEq, Eq, Structural)]
pub enum XWindowType {
    /// A desktop feature, such as a full-screen icon view.
    Desktop,
    /// A dock or panel, typically kept on top of other windows.
    Dock,
    /// A toolbar torn off from the main application.
    Toolbar,
    /// A pinnable menu torn off from the main application.
    Menu,
    /// A small persistent utility window, such as a palette or toolbox.
    Utility,
    /// A splash screen shown while an application starts.
    Splash,
    /// A dialog window.
    Dialog,
    /// A dropdown menu spawned from a menubar.
    DropdownMenu,
    /// A popup menu spawned from a right click.
    PopupMenu,
    /// A tooltip shown for the object under the pointer.
    Tooltip,
    /// A notification bubble.
    Notification,
    /// A combo-box popup.
    Combo,
    /// An object being dragged.
    Dnd,
    /// A normal, top-level window.
    Normal,
}

/// The platform-specific option record a window builder accumulates.
///
/// Each field defaults to "unset" and is consulted only by the backend that
/// matches its platform.
#[derive(Clone, Debug)]
pub struct PlatformAttributes {
    /// X11: visual descriptor for the window.
    pub visual_infos: Option<XVisualInfo>,
    /// X11: screen to create the window on.
    pub screen_id: Option<i32>,
    /// X11: `WM_CLASS` hint as the pair (instance, class).
    pub class: Option<(String, String)>,
    /// X11: override-redirect flag; defaults to false.
    pub override_redirect: bool,
    /// X11: `_NET_WM_WINDOW_TYPE` hints; defaults to `Normal` alone.
    pub x11_window_types: Vec<XWindowType>,
    /// X11: `_GTK_THEME_VARIANT` hint.
    pub gtk_theme_variant: Option<String>,
    /// X11: resize increment hint.
    pub resize_increments: Option<Size>,
    /// X11: base size hint.
    pub base_size: Option<Size>,
    /// Wayland: application ID; should match the `.desktop` file
    /// distributed with the program.
    pub app_id: Option<String>,
}

/// A generic window builder carrying the platform-specific option record.
#[derive(Clone, Debug)]
pub struct WindowBuilder {
    /// The accumulated platform-specific options.
    pub platform_specific: PlatformAttributes,
}

/// Whether the option record is at its default: every field unset, the
/// override-redirect flag false, and the window-type hint list holding
/// `Normal` alone.
pub open spec fn is_default_platform_attributes(p: PlatformAttributes) -> bool {
    &&& p.visual_infos is None
    &&& p.screen_id is None
    &&& p.class is None
    &&& p.override_redirect == false
    &&& p.x11_window_types@ == seq![XWindowType::Normal]
    &&& p.gtk_theme_variant is None
    &&& p.resize_increments is None
    &&& p.base_size is None
    &&& p.app_id is None
}

/// One platform-specific option, as one setter call records it.
#[derive(Clone, Debug)]
pub enum BuilderOption {
    /// X11 visual descriptor.
    Visual(XVisualInfo),
    /// X11 screen ID.
    Screen(i32),
    /// X11 `WM_CLASS` pair (instance, class).
    Class(String, String),
    /// X11 override-redirect flag.
    OverrideRedirect(bool),
    /// X11 window-type hints.
    WindowTypes(Vec<XWindowType>),
    /// X11 GTK theme variant.
    GtkThemeVariant(String),
    /// X11 resize increment hint.
    ResizeIncrements(Size),
    /// X11 base size hint.
    BaseSize(Size),
    /// Wayland application ID.
    AppId(String),
}

/// Which field of the option record an option writes. Two options interfere
/// exactly when they share a slot.
pub open spec fn option_slot(o: BuilderOption) -> int {
    match o {
        BuilderOption::Visual(_) => 0,
        BuilderOption::Screen(_) => 1,
        BuilderOption::Class(_, _) => 2,
        BuilderOption::OverrideRedirect(_) => 3,
        BuilderOption::WindowTypes(_) => 4,
        BuilderOption::GtkThemeVariant(_) => 5,
        BuilderOption::ResizeIncrements(_) => 6,
        BuilderOption::BaseSize(_) => 7,
        BuilderOption::AppId(_) => 8,
    }
}

/// What one setter call does: replace exactly the option's own field of the
/// record and leave every other field as it was.
pub open spec fn apply_option(b: WindowBuilder, o: BuilderOption) -> WindowBuilder {
    WindowBuilder {
        platform_specific: match o {
            BuilderOption::Visual(v) => PlatformAttributes {
                visual_infos: Some(v),
                ..b.platform_specific
            },
            BuilderOption::Screen(s) => PlatformAttributes {
                screen_id: Some(s),
                ..b.platform_specific
            },
            BuilderOption::Class(instance, class) => PlatformAttributes {
                class: Some((instance, class)),
                ..b.platform_specific
            },
            BuilderOption::OverrideRedirect(v) => PlatformAttributes {
                override_redirect: v,
                ..b.platform_specific
            },
            BuilderOption::WindowTypes(ts) => PlatformAttributes {
                x11_window_types: ts,
                ..b.platform_specific
            },
            BuilderOption::GtkThemeVariant(v) => PlatformAttributes {
                gtk_theme_variant: Some(v),
                ..b.platform_specific
            },
            BuilderOption::ResizeIncrements(s) => PlatformAttributes {
                resize_increments: Some(s),
                ..b.platform_specific
            },
            BuilderOption::BaseSize(s) => PlatformAttributes {
                base_size: Some(s),
                ..b.platform_specific
            },
            BuilderOption::AppId(id) => PlatformAttributes {
                app_id: Some(id),
                ..b.platform_specific
            },
        },
    }
}

impl WindowBuilder {
    /// A builder with every platform-specific option at its default.
    pub fn new() -> (r: WindowBuilder)
        ensures
            is_default_platform_attributes(r.platform_specific),
    {
        let mut types: Vec<XWindowType> = Vec::new();
        types.push(XWindowType::Normal);
        proof {
            assert(types@ =~= seq![XWindowType::Normal]);
        }
        WindowBuilder {
            platform_specific: PlatformAttributes {
                visual_infos: None,
                screen_id: None,
                class: None,
                override_redirect: false,
                x11_window_types: types,
                gtk_theme_variant: None,
                resize_increments: None,
                base_size: None,
                app_id: None,
            },
        }
    }
}

/// Additional setters on a window builder that are specific to Unix.
///
/// Each setter records one option and returns the builder, so calls chain.
pub trait WindowBuilderExtUnix where Self: Sized {
    /// Build window with the given X11 visual descriptor. Only relevant on
    /// X11.
    fn with_x11_visual(self, visual_infos: XVisualInfo) -> Self;

    /// Build window on the given X11 screen. No validation at set time: an
    /// out-of-range screen ID is accepted here and rejected only by the
    /// backend constructor. Only relevant on X11.
    fn with_x11_screen(self, screen_id: i32) -> Self;

    /// Build window with the `WM_CLASS` hint, as the pair
    /// (instance, class) in that order; defaults to the name of the binary.
    /// Only relevant on X11.
    fn with_class(self, instance: String, class: String) -> Self;

    /// Build window with the override-redirect flag; defaults to false.
    /// Only relevant on X11.
    fn with_override_redirect(self, override_redirect: bool) -> Self;

    /// Build window with `_NET_WM_WINDOW_TYPE` hints; defaults to `Normal`.
    /// Only relevant on X11.
    fn with_x11_window_type(self, x11_window_types: Vec<XWindowType>) -> Self;

    /// Build window with the `_GTK_THEME_VARIANT` hint set to the given
    /// value. Only relevant on X11.
    fn with_gtk_theme_variant(self, variant: String) -> Self;

    /// Build window with the resize increment hint. Only relevant on X11.
    fn with_resize_increments(self, increments: Size) -> Self;

    /// Build window with the base size hint. Only relevant on X11.
    fn with_base_size(self, base_size: Size) -> Self;

    /// Build window with the given application ID. It should match the
    /// `.desktop` file distributed with the program. Only relevant on
    /// Wayland.
    fn with_app_id(self, app_id: String) -> Self;
}

impl WindowBuilderExtUnix for WindowBuilder {
    fn with_x11_visual(self, visual_infos: XVisualInfo) -> (r: Self)
        ensures
            r == apply_option(self, BuilderOption::Visual(visual_infos)),
    {
        WindowBuilder {
            platform_specific: PlatformAttributes {
                visual_infos: Some(visual_infos),
                ..self.platform_specific
            },
        }
    }

    fn with_x11_screen(self, screen_id: i32) -> (r: Self)
        ensures
            r == apply_option(self, BuilderOption::Screen(screen_id)),
    {
        WindowBuilder {
            platform_specific: PlatformAttributes {
                screen_id: Some(screen_id),
                ..self.platform_specific
            },
        }
    }

    fn with_class(self, instance: String, class: String) -> (r: Self)
        ensures
            r == apply_option(self, BuilderOption::Class(instance, class)),
    {
        WindowBuilder {
            platform_specific: PlatformAttributes {
                class: Some((instance, class)),
                ..self.platform_specific
            },
        }
    }

    fn with_override_redirect(self, override_redirect: bool) -> (r: Self)
        ensures
            r == apply_option(self, BuilderOption::OverrideRedirect(override_redirect)),
    {
        WindowBuilder {
            platform_specific: PlatformAttributes {
                override_redirect,
                ..self.platform_specific
            },
        }
    }

    fn with_x11_window_type(self, x11_window_types: Vec<XWindowType>) -> (r: Self)
        ensures
            r == apply_option(self, BuilderOption::WindowTypes(x11_window_types)),
    {
        WindowBuilder {
            platform_specific: PlatformAttributes {
                x11_window_types,
                ..self.platform_specific
            },
        }
    }

    fn with_gtk_theme_variant(self, variant: String) -> (r: Self)
        ensures
            r == apply_option(self, BuilderOption::GtkThemeVariant(variant)),
    {
        WindowBuilder {
            platform_specific: PlatformAttributes {
                gtk_theme_variant: Some(variant),
                ..self.platform_specific
            },
        }
    }

    fn with_resize_increments(self, increments: Size) -> (r: Self)
        ensures
            r == apply_option(self, BuilderOption::ResizeIncrements(increments)),
    {
        WindowBuilder {
            platform_specific: PlatformAttributes {
                resize_increments: Some(increments),
                ..self.platform_specific
            },
        }
    }

    fn with_base_size(self, base_size: Size) -> (r: Self)
        ensures
            r == apply_option(self, BuilderOption::BaseSize(base_size)),
    {
        WindowBuilder {
            platform_specific: PlatformAttributes {
                base_size: Some(base_size),
                ..self.platform_specific
            },
        }
    }

    fn with_app_id(self, app_id: String) -> (r: Self)
        ensures
            r == apply_option(self, BuilderOption::AppId(app_id)),
    {
        WindowBuilder {
            platform_specific: PlatformAttributes {
                app_id: Some(app_id),
                ..self.platform_specific
            },
        }
    }
}

/// Setting the same slot twice keeps only the later write: the earlier
/// option leaves no trace (last-write-wins). Setting one option twice with
/// identical values is the special case, so setters are idempotent under
/// repeated identical calls.
pub proof fn lemma_option_last_write_wins(b: WindowBuilder, o1: BuilderOption, o2: BuilderOption)
    requires
        option_slot(o1) == option_slot(o2),
    ensures
        apply_option(apply_option(b, o1), o2) == apply_option(b, o2),
{
}

/// Options that write distinct slots chain in any order without
/// interference: applying them in either order leaves the same builder.
pub proof fn lemma_distinct_options_commute(b: WindowBuilder, o1: BuilderOption, o2: BuilderOption)
    requires
        option_slot(o1) != option_slot(o2),
    ensures
        apply_option(apply_option(b, o1), o2) == apply_option(apply_option(b, o2), o1),
{
}

} // verus!
