//! Translation between platform-neutral key codes and raw numeric scancodes.
//!
//! Scancode numbering is hardware- and layout-dependent; the numbering here
//! follows the Linux evdev layout. The forward table maps specific codes to
//! named key identities; every code outside the table — including gaps inside
//! the covered range — maps to a fallback variant that carries the original
//! code verbatim, so translation never fails and never loses information.
//!
//! The scancode mapping table is effectively a versioned, append-only
//! compatibility surface: removing or renumbering an existing mapping is a
//! breaking change for callers persisting scancodes.

use vstd::prelude::*;

verus! {

/// A raw, backend-native key identifier, kept when no platform-neutral key
/// code corresponds to a scancode.
#[derive(Clone, Copy, Debug, PartialEq, Eq, Structural)]
pub enum NativeKeyCode {
    /// An XKB/evdev scancode as delivered by the Unix backends.
    XKB(u32),
}

/// A platform-neutral identifier for a physical key.
///
/// `Unidentified` carries the native scancode of a key that has no neutral
/// equivalent, so unknown or future keys survive translation without being
/// dropped.
#[derive(Clone, Copy, Debug, PartialEq, Eq, Structural)]
pub enum KeyCode {
    Escape,
    Digit1,
    Digit2,
    Digit3,
    Digit4,
    Digit5,
    Digit6,
    Digit7,
    Digit8,
    Digit9,
    Digit0,
    Minus,
    Equal,
    Backspace,
    Tab,
    KeyQ,
    KeyW,
    KeyE,
    KeyR,
    KeyT,
    KeyY,
    KeyU,
    KeyI,
    KeyO,
    KeyP,
    BracketLeft,
    BracketRight,
    Enter,
    ControlLeft,
    KeyA,
    KeyS,
    KeyD,
    KeyF,
    KeyG,
    KeyH,
    KeyJ,
    KeyK,
    KeyL,
    Semicolon,
    Backquote,
    ShiftLeft,
    Backslash,
    KeyZ,
    KeyX,
    KeyC,
    KeyV,
    KeyB,
    KeyN,
    KeyM,
    Comma,
    Period,
    Slash,
    ShiftRight,
    AltLeft,
    Space,
    CapsLock,
    F1,
    F2,
    F3,
    F4,
    F5,
    F6,
    F7,
    F8,
    F9,
    F10,
    ScrollLock,
    F11,
    F12,
    ControlRight,
    PrintScreen,
    AltRight,
    Home,
    ArrowUp,
    PageUp,
    ArrowLeft,
    ArrowRight,
    End,
    ArrowDown,
    PageDown,
    Insert,
    Delete,
    AudioVolumeMute,
    AudioVolumeDown,
    AudioVolumeUp,
    Pause,
    SuperLeft,
    ContextMenu,
    Fn,
    BrowserBack,
    BrowserForward,
    /// A key with no platform-neutral identity; carries the native scancode.
    Unidentified(NativeKeyCode),
}

/// The forward scancode table as a total mathematical function: named keys for
/// the codes the table defines, the fallback carrying the code for all others.
pub open spec fn key_from_scancode(scancode: u32) -> KeyCode {
    match scancode {
        1u32 => KeyCode::Escape,
        2u32 => KeyCode::Digit1,
        3u32 => KeyCode::Digit2,
        4u32 => KeyCode::Digit3,
        5u32 => KeyCode::Digit4,
        6u32 => KeyCode::Digit5,
        7u32 => KeyCode::Digit6,
        8u32 => KeyCode::Digit7,
        9u32 => KeyCode::Digit8,
        10u32 => KeyCode::Digit9,
        11u32 => KeyCode::Digit0,
        12u32 => KeyCode::Minus,
        13u32 => KeyCode::Equal,
        14u32 => KeyCode::Backspace,
        15u32 => KeyCode::Tab,
        16u32 => KeyCode::KeyQ,
        17u32 => KeyCode::KeyW,
        18u32 => KeyCode::KeyE,
        19u32 => KeyCode::KeyR,
        20u32 => KeyCode::KeyT,
        21u32 => KeyCode::KeyY,
        22u32 => KeyCode::KeyU,
        23u32 => KeyCode::KeyI,
        24u32 => KeyCode::KeyO,
        25u32 => KeyCode::KeyP,
        26u32 => KeyCode::BracketLeft,
        27u32 => KeyCode::BracketRight,
        28u32 => KeyCode::Enter,
        29u32 => KeyCode::ControlLeft,
        30u32 => KeyCode::KeyA,
        31u32 => KeyCode::KeyS,
        32u32 => KeyCode::KeyD,
        33u32 => KeyCode::KeyF,
        34u32 => KeyCode::KeyG,
        35u32 => KeyCode::KeyH,
        36u32 => KeyCode::KeyJ,
        37u32 => KeyCode::KeyK,
        38u32 => KeyCode::KeyL,
        39u32 => KeyCode::Semicolon,
        41u32 => KeyCode::Backquote,
        42u32 => KeyCode::ShiftLeft,
        43u32 => KeyCode::Backslash,
        44u32 => KeyCode::KeyZ,
        45u32 => KeyCode::KeyX,
        46u32 => KeyCode::KeyC,
        47u32 => KeyCode::KeyV,
        48u32 => KeyCode::KeyB,
        49u32 => KeyCode::KeyN,
        50u32 => KeyCode::KeyM,
        51u32 => KeyCode::Comma,
        52u32 => KeyCode::Period,
        53u32 => KeyCode::Slash,
        54u32 => KeyCode::ShiftRight,
        56u32 => KeyCode::AltLeft,
        57u32 => KeyCode::Space,
        58u32 => KeyCode::CapsLock,
        59u32 => KeyCode::F1,
        60u32 => KeyCode::F2,
        61u32 => KeyCode::F3,
        62u32 => KeyCode::F4,
        63u32 => KeyCode::F5,
        64u32 => KeyCode::F6,
        65u32 => KeyCode::F7,
        66u32 => KeyCode::F8,
        67u32 => KeyCode::F9,
        68u32 => KeyCode::F10,
        70u32 => KeyCode::ScrollLock,
        87u32 => KeyCode::F11,
        88u32 => KeyCode::F12,
        97u32 => KeyCode::ControlRight,
        99u32 => KeyCode::PrintScreen,
        100u32 => KeyCode::AltRight,
        102u32 => KeyCode::Home,
        103u32 => KeyCode::ArrowUp,
        104u32 => KeyCode::PageUp,
        105u32 => KeyCode::ArrowLeft,
        106u32 => KeyCode::ArrowRight,
        107u32 => KeyCode::End,
        108u32 => KeyCode::ArrowDown,
        109u32 => KeyCode::PageDown,
        110u32 => KeyCode::Insert,
        111u32 => KeyCode::Delete,
        113u32 => KeyCode::AudioVolumeMute,
        114u32 => KeyCode::AudioVolumeDown,
        115u32 => KeyCode::AudioVolumeUp,
        119u32 => KeyCode::Pause,
        125u32 => KeyCode::SuperLeft,
        127u32 => KeyCode::ContextMenu,
        143u32 => KeyCode::Fn,
        158u32 => KeyCode::BrowserBack,
        159u32 => KeyCode::BrowserForward,
        _ => KeyCode::Unidentified(NativeKeyCode::XKB(scancode)),
    }
}

/// Whether the forward table defines a named key for `scancode`, written as
/// the covered code ranges: 1–159 with the gaps left to the fallback.
pub open spec fn scancode_in_table(scancode: u32) -> bool {
    ||| (1 <= scancode && scancode <= 39)
    ||| (41 <= scancode && scancode <= 54)
    ||| (56 <= scancode && scancode <= 68)
    ||| scancode == 70
    ||| scancode == 87
    ||| scancode == 88
    ||| scancode == 97
    ||| scancode == 99
    ||| scancode == 100
    ||| (102 <= scancode && scancode <= 111)
    ||| scancode == 113
    ||| scancode == 114
    ||| scancode == 115
    ||| scancode == 119
    ||| scancode == 125
    ||| scancode == 127
    ||| scancode == 143
    ||| scancode == 158
    ||| scancode == 159
}

impl KeyCode {
    /// Translates a raw scancode to its platform-neutral key code.
    ///
    /// Total over the whole 32-bit input space: codes the forward table
    /// defines yield the documented named key, and every other code yields
    /// `Unidentified` carrying exactly that code.
    pub fn from_scancode(scancode: u32) -> (r: KeyCode)
        ensures
            r == key_from_scancode(scancode),
    {
        match scancode {
            1 => KeyCode::Escape,
            2 => KeyCode::Digit1,
            3 => KeyCode::Digit2,
            4 => KeyCode::Digit3,
            5 => KeyCode::Digit4,
            6 => KeyCode::Digit5,
            7 => KeyCode::Digit6,
            8 => KeyCode::Digit7,
            9 => KeyCode::Digit8,
            10 => KeyCode::Digit9,
            11 => KeyCode::Digit0,
            12 => KeyCode::Minus,
            13 => KeyCode::Equal,
            14 => KeyCode::Backspace,
            15 => KeyCode::Tab,
            16 => KeyCode::KeyQ,
            17 => KeyCode::KeyW,
            18 => KeyCode::KeyE,
            19 => KeyCode::KeyR,
            20 => KeyCode::KeyT,
            21 => KeyCode::KeyY,
            22 => KeyCode::KeyU,
            23 => KeyCode::KeyI,
            24 => KeyCode::KeyO,
            25 => KeyCode::KeyP,
            26 => KeyCode::BracketLeft,
            27 => KeyCode::BracketRight,
            28 => KeyCode::Enter,
            29 => KeyCode::ControlLeft,
            30 => KeyCode::KeyA,
            31 => KeyCode::KeyS,
            32 => KeyCode::KeyD,
            33 => KeyCode::KeyF,
            34 => KeyCode::KeyG,
            35 => KeyCode::KeyH,
            36 => KeyCode::KeyJ,
            37 => KeyCode::KeyK,
            38 => KeyCode::KeyL,
            39 => KeyCode::Semicolon,
            41 => KeyCode::Backquote,
            42 => KeyCode::ShiftLeft,
            43 => KeyCode::Backslash,
            44 => KeyCode::KeyZ,
            45 => KeyCode::KeyX,
            46 => KeyCode::KeyC,
            47 => KeyCode::KeyV,
            48 => KeyCode::KeyB,
            49 => KeyCode::KeyN,
            50 => KeyCode::KeyM,
            51 => KeyCode::Comma,
            52 => KeyCode::Period,
            53 => KeyCode::Slash,
            54 => KeyCode::ShiftRight,
            56 => KeyCode::AltLeft,
            57 => KeyCode::Space,
            58 => KeyCode::CapsLock,
            59 => KeyCode::F1,
            60 => KeyCode::F2,
            61 => KeyCode::F3,
            62 => KeyCode::F4,
            63 => KeyCode::F5,
            64 => KeyCode::F6,
            65 => KeyCode::F7,
            66 => KeyCode::F8,
            67 => KeyCode::F9,
            68 => KeyCode::F10,
            70 => KeyCode::ScrollLock,
            87 => KeyCode::F11,
            88 => KeyCode::F12,
            97 => KeyCode::ControlRight,
            99 => KeyCode::PrintScreen,
            100 => KeyCode::AltRight,
            102 => KeyCode::Home,
            103 => KeyCode::ArrowUp,
            104 => KeyCode::PageUp,
            105 => KeyCode::ArrowLeft,
            106 => KeyCode::ArrowRight,
            107 => KeyCode::End,
            108 => KeyCode::ArrowDown,
            109 => KeyCode::PageDown,
            110 => KeyCode::Insert,
            111 => KeyCode::Delete,
            113 => KeyCode::AudioVolumeMute,
            114 => KeyCode::AudioVolumeDown,
            115 => KeyCode::AudioVolumeUp,
            119 => KeyCode::Pause,
            125 => KeyCode::SuperLeft,
            127 => KeyCode::ContextMenu,
            143 => KeyCode::Fn,
            158 => KeyCode::BrowserBack,
            159 => KeyCode::BrowserForward,
            _ => KeyCode::Unidentified(NativeKeyCode::XKB(scancode)),
        }
    }

    /// Translates a platform-neutral key code back to a raw scancode.
    ///
    /// This configuration defines no reverse mapping at all: the result is
    /// always `None`. Round-tripping through `from_scancode` and back is
    /// therefore not available — a valid but lossy configuration, kept
    /// deliberately asymmetric with the total forward direction.
    pub fn to_scancode(self) -> (r: Option<u32>)
        ensures
            r is None,
    {
        None
    }
}

/// For every scancode the forward table defines, translation yields a named
/// key, never the fallback.
pub proof fn lemma_from_scancode_named(scancode: u32)
    requires
        scancode_in_table(scancode),
    ensures
        !(key_from_scancode(scancode) is Unidentified),
{
}

/// For every scancode outside the forward table, translation yields the
/// fallback carrying exactly that code: no failure path, no information loss.
pub proof fn lemma_from_scancode_fallback(scancode: u32)
    requires
        !scancode_in_table(scancode),
    ensures
        key_from_scancode(scancode) == KeyCode::Unidentified(NativeKeyCode::XKB(scancode)),
{
}

} // verus!
