use unix_ext::keycode::{KeyCode, NativeKeyCode};

#[test]
fn from_scancode_space() {
    assert_eq!(KeyCode::from_scancode(57), KeyCode::Space);
}

#[test]
fn from_scancode_escape() {
    assert_eq!(KeyCode::from_scancode(1), KeyCode::Escape);
}

#[test]
fn from_scancode_unknown_carries_code() {
    assert_eq!(
        KeyCode::from_scancode(9999),
        KeyCode::Unidentified(NativeKeyCode::XKB(9999))
    );
}

#[test]
fn from_scancode_named_keys() {
    assert_eq!(KeyCode::from_scancode(2), KeyCode::Digit1);
    assert_eq!(KeyCode::from_scancode(11), KeyCode::Digit0);
    assert_eq!(KeyCode::from_scancode(16), KeyCode::KeyQ);
    assert_eq!(KeyCode::from_scancode(28), KeyCode::Enter);
    assert_eq!(KeyCode::from_scancode(39), KeyCode::Semicolon);
    assert_eq!(KeyCode::from_scancode(59), KeyCode::F1);
    assert_eq!(KeyCode::from_scancode(88), KeyCode::F12);
    assert_eq!(KeyCode::from_scancode(103), KeyCode::ArrowUp);
    assert_eq!(KeyCode::from_scancode(158), KeyCode::BrowserBack);
    assert_eq!(KeyCode::from_scancode(159), KeyCode::BrowserForward);
}

#[test]
fn from_scancode_gaps_fall_back() {
    // Gaps inside the covered range still map to the fallback.
    assert_eq!(
        KeyCode::from_scancode(40),
        KeyCode::Unidentified(NativeKeyCode::XKB(40))
    );
    assert_eq!(
        KeyCode::from_scancode(55),
        KeyCode::Unidentified(NativeKeyCode::XKB(55))
    );
    assert_eq!(
        KeyCode::from_scancode(69),
        KeyCode::Unidentified(NativeKeyCode::XKB(69))
    );
}

#[test]
fn from_scancode_edges_fall_back() {
    assert_eq!(
        KeyCode::from_scancode(0),
        KeyCode::Unidentified(NativeKeyCode::XKB(0))
    );
    assert_eq!(
        KeyCode::from_scancode(160),
        KeyCode::Unidentified(NativeKeyCode::XKB(160))
    );
    assert_eq!(
        KeyCode::from_scancode(u32::MAX),
        KeyCode::Unidentified(NativeKeyCode::XKB(u32::MAX))
    );
}

#[test]
fn to_scancode_has_no_reverse_mapping() {
    assert_eq!(KeyCode::Space.to_scancode(), None);
    assert_eq!(KeyCode::Escape.to_scancode(), None);
    assert_eq!(
        KeyCode::Unidentified(NativeKeyCode::XKB(57)).to_scancode(),
        None
    );
}
