use unix_ext::builder::{
    Size, WindowBuilder, WindowBuilderExtUnix, XVisualInfo, XWindowType,
};

#[test]
fn new_builder_has_default_options() {
    let b = WindowBuilder::new();
    let p = &b.platform_specific;
    assert_eq!(p.visual_infos, None);
    assert_eq!(p.screen_id, None);
    assert_eq!(p.class, None);
    assert!(!p.override_redirect);
    assert_eq!(p.x11_window_types, vec![XWindowType::Normal]);
    assert_eq!(p.gtk_theme_variant, None);
    assert_eq!(p.resize_increments, None);
    assert_eq!(p.base_size, None);
    assert_eq!(p.app_id, None);
}

#[test]
fn override_redirect_last_write_wins() {
    let b = WindowBuilder::new()
        .with_override_redirect(true)
        .with_override_redirect(false);
    assert!(!b.platform_specific.override_redirect);
}

#[test]
fn setters_are_idempotent_under_identical_calls() {
    let once = WindowBuilder::new().with_x11_screen(4);
    let twice = WindowBuilder::new().with_x11_screen(4).with_x11_screen(4);
    assert_eq!(once.platform_specific.screen_id, Some(4));
    assert_eq!(
        once.platform_specific.screen_id,
        twice.platform_specific.screen_id
    );
}

#[test]
fn each_setter_writes_its_own_field() {
    let b = WindowBuilder::new()
        .with_x11_visual(XVisualInfo {
            visualid: 33,
            depth: 24,
        })
        .with_x11_screen(-1)
        .with_class(String::from("instance"), String::from("class"))
        .with_override_redirect(true)
        .with_x11_window_type(vec![XWindowType::Dialog, XWindowType::Dock])
        .with_gtk_theme_variant(String::from("dark"))
        .with_resize_increments(Size {
            width: 8,
            height: 16,
        })
        .with_base_size(Size {
            width: 320,
            height: 200,
        })
        .with_app_id(String::from("org.example.app"));
    let p = &b.platform_specific;
    assert_eq!(
        p.visual_infos,
        Some(XVisualInfo {
            visualid: 33,
            depth: 24
        })
    );
    assert_eq!(p.screen_id, Some(-1));
    assert_eq!(
        p.class,
        Some((String::from("instance"), String::from("class")))
    );
    assert!(p.override_redirect);
    assert_eq!(
        p.x11_window_types,
        vec![XWindowType::Dialog, XWindowType::Dock]
    );
    assert_eq!(p.gtk_theme_variant, Some(String::from("dark")));
    assert_eq!(p.resize_increments, Some(Size { width: 8, height: 16 }));
    assert_eq!(
        p.base_size,
        Some(Size {
            width: 320,
            height: 200
        })
    );
    assert_eq!(p.app_id, Some(String::from("org.example.app")));
}

#[test]
fn distinct_setters_chain_in_any_order() {
    let one = WindowBuilder::new()
        .with_x11_screen(2)
        .with_app_id(String::from("org.example.app"))
        .with_override_redirect(true);
    let other = WindowBuilder::new()
        .with_override_redirect(true)
        .with_x11_screen(2)
        .with_app_id(String::from("org.example.app"));
    assert_eq!(
        one.platform_specific.screen_id,
        other.platform_specific.screen_id
    );
    assert_eq!(one.platform_specific.app_id, other.platform_specific.app_id);
    assert_eq!(
        one.platform_specific.override_redirect,
        other.platform_specific.override_redirect
    );
    assert_eq!(
        one.platform_specific.x11_window_types,
        other.platform_specific.x11_window_types
    );
}

#[test]
fn setting_an_ignored_field_is_accepted() {
    // A negative screen id is accepted at set time; validation is the
    // backend constructor's business.
    let b = WindowBuilder::new().with_x11_screen(-5);
    assert_eq!(b.platform_specific.screen_id, Some(-5));
}
