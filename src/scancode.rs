//! The compact scancode space of this crate: every winit virtual key code is
//! given a number in `1..=163`, and `0` stands for "no key". The numbering is
//! made up; it has no relation to hardware scancodes.

use vstd::prelude::*;
use winit::event::VirtualKeyCode as Vk;

verus! {

/// The scancode that stands for "no key".
pub const SC_INVALID: u16 = 0;

/// The largest scancode that names a key.
pub const SC_MAX: u16 = 163;

/// The scancode given to each virtual key code.
pub open spec fn scancode_of_key(k: Vk) -> u16 {
    match k {
        Vk::Key1 => 1,
        Vk::Key2 => 2,
        Vk::Key3 => 3,
        Vk::Key4 => 4,
        Vk::Key5 => 5,
        Vk::Key6 => 6,
        Vk::Key7 => 7,
        Vk::Key8 => 8,
        Vk::Key9 => 9,
        Vk::Key0 => 10,
        Vk::A => 11,
        Vk::B => 12,
        Vk::C => 13,
        Vk::D => 14,
        Vk::E => 15,
        Vk::F => 16,
        Vk::G => 17,
        Vk::H => 18,
        Vk::I => 19,
        Vk::J => 20,
        Vk::K => 21,
        Vk::L => 22,
        Vk::M => 23,
        Vk::N => 24,
        Vk::O => 25,
        Vk::P => 26,
        Vk::Q => 27,
        Vk::R => 28,
        Vk::S => 29,
        Vk::T => 30,
        Vk::U => 31,
        Vk::V => 32,
        Vk::W => 33,
        Vk::X => 34,
        Vk::Y => 35,
        Vk::Z => 36,
        Vk::Escape => 37,
        Vk::F1 => 38,
        Vk::F2 => 39,
        Vk::F3 => 40,
        Vk::F4 => 41,
        Vk::F5 => 42,
        Vk::F6 => 43,
        Vk::F7 => 44,
        Vk::F8 => 45,
        Vk::F9 => 46,
        Vk::F10 => 47,
        Vk::F11 => 48,
        Vk::F12 => 49,
        Vk::F13 => 50,
        Vk::F14 => 51,
        Vk::F15 => 52,
        Vk::F16 => 53,
        Vk::F17 => 54,
        Vk::F18 => 55,
        Vk::F19 => 56,
        Vk::F20 => 57,
        Vk::F21 => 58,
        Vk::F22 => 59,
        Vk::F23 => 60,
        Vk::F24 => 61,
        Vk::Snapshot => 62,
        Vk::Scroll => 63,
        Vk::Pause => 64,
        Vk::Insert => 65,
        Vk::Home => 66,
        Vk::Delete => 67,
        Vk::End => 68,
        Vk::PageDown => 69,
        Vk::PageUp => 70,
        Vk::Left => 71,
        Vk::Up => 72,
        Vk::Right => 73,
        Vk::Down => 74,
        Vk::Back => 75,
        Vk::Return => 76,
        Vk::Space => 77,
        Vk::Compose => 78,
        Vk::Caret => 79,
        Vk::Numlock => 80,
        Vk::Numpad0 => 81,
        Vk::Numpad1 => 82,
        Vk::Numpad2 => 83,
        Vk::Numpad3 => 84,
        Vk::Numpad4 => 85,
        Vk::Numpad5 => 86,
        Vk::Numpad6 => 87,
        Vk::Numpad7 => 88,
        Vk::Numpad8 => 89,
        Vk::Numpad9 => 90,
        Vk::NumpadAdd => 91,
        Vk::NumpadDivide => 92,
        Vk::NumpadDecimal => 93,
        Vk::NumpadComma => 94,
        Vk::NumpadEnter => 95,
        Vk::NumpadEquals => 96,
        Vk::NumpadMultiply => 97,
        Vk::NumpadSubtract => 98,
        Vk::AbntC1 => 99,
        Vk::AbntC2 => 100,
        Vk::Apostrophe => 101,
        Vk::Apps => 102,
        Vk::Asterisk => 103,
        Vk::At => 104,
        Vk::Ax => 105,
        Vk::Backslash => 106,
        Vk::Calculator => 107,
        Vk::Capital => 108,
        Vk::Colon => 109,
        Vk::Comma => 110,
        Vk::Convert => 111,
        Vk::Equals => 112,
        Vk::Grave => 113,
        Vk::Kana => 114,
        Vk::Kanji => 115,
        Vk::LAlt => 116,
        Vk::LBracket => 117,
        Vk::LControl => 118,
        Vk::LShift => 119,
        Vk::LWin => 120,
        Vk::Mail => 121,
        Vk::MediaSelect => 122,
        Vk::MediaStop => 123,
        Vk::Minus => 124,
        Vk::Mute => 125,
        Vk::MyComputer => 126,
        Vk::NavigateForward => 127,
        Vk::NavigateBackward => 128,
        Vk::NextTrack => 129,
        Vk::NoConvert => 130,
        Vk::OEM102 => 131,
        Vk::Period => 132,
        Vk::PlayPause => 133,
        Vk::Plus => 134,
        Vk::Power => 135,
        Vk::PrevTrack => 136,
        Vk::RAlt => 137,
        Vk::RBracket => 138,
        Vk::RControl => 139,
        Vk::RShift => 140,
        Vk::RWin => 141,
        Vk::Semicolon => 142,
        Vk::Slash => 143,
        Vk::Sleep => 144,
        Vk::Stop => 145,
        Vk::Sysrq => 146,
        Vk::Tab => 147,
        Vk::Underline => 148,
        Vk::Unlabeled => 149,
        Vk::VolumeDown => 150,
        Vk::VolumeUp => 151,
        Vk::Wake => 152,
        Vk::WebBack => 153,
        Vk::WebFavorites => 154,
        Vk::WebForward => 155,
        Vk::WebHome => 156,
        Vk::WebRefresh => 157,
        Vk::WebSearch => 158,
        Vk::WebStop => 159,
        Vk::Yen => 160,
        Vk::Copy => 161,
        Vk::Paste => 162,
        Vk::Cut => 163,
    }
}

/// The virtual key code that each scancode names, if any.
pub open spec fn key_of_scancode(sc: u16) -> Option<Vk> {
    match sc {
        1 => Some(Vk::Key1),
        2 => Some(Vk::Key2),
        3 => Some(Vk::Key3),
        4 => Some(Vk::Key4),
        5 => Some(Vk::Key5),
        6 => Some(Vk::Key6),
        7 => Some(Vk::Key7),
        8 => Some(Vk::Key8),
        9 => Some(Vk::Key9),
        10 => Some(Vk::Key0),
        11 => Some(Vk::A),
        12 => Some(Vk::B),
        13 => Some(Vk::C),
        14 => Some(Vk::D),
        15 => Some(Vk::E),
        16 => Some(Vk::F),
        17 => Some(Vk::G),
        18 => Some(Vk::H),
        19 => Some(Vk::I),
        20 => Some(Vk::J),
        21 => Some(Vk::K),
        22 => Some(Vk::L),
        23 => Some(Vk::M),
        24 => Some(Vk::N),
        25 => Some(Vk::O),
        26 => Some(Vk::P),
        27 => Some(Vk::Q),
        28 => Some(Vk::R),
        29 => Some(Vk::S),
        30 => Some(Vk::T),
        31 => Some(Vk::U),
        32 => Some(Vk::V),
        33 => Some(Vk::W),
        34 => Some(Vk::X),
        35 => Some(Vk::Y),
        36 => Some(Vk::Z),
        37 => Some(Vk::Escape),
        38 => Some(Vk::F1),
        39 => Some(Vk::F2),
        40 => Some(Vk::F3),
        41 => Some(Vk::F4),
        42 => Some(Vk::F5),
        43 => Some(Vk::F6),
        44 => Some(Vk::F7),
        45 => Some(Vk::F8),
        46 => Some(Vk::F9),
        47 => Some(Vk::F10),
        48 => Some(Vk::F11),
        49 => Some(Vk::F12),
        50 => Some(Vk::F13),
        51 => Some(Vk::F14),
        52 => Some(Vk::F15),
        53 => Some(Vk::F16),
        54 => Some(Vk::F17),
        55 => Some(Vk::F18),
        56 => Some(Vk::F19),
        57 => Some(Vk::F20),
        58 => Some(Vk::F21),
        59 => Some(Vk::F22),
        60 => Some(Vk::F23),
        61 => Some(Vk::F24),
        62 => Some(Vk::Snapshot),
        63 => Some(Vk::Scroll),
        64 => Some(Vk::Pause),
        65 => Some(Vk::Insert),
        66 => Some(Vk::Home),
        67 => Some(Vk::Delete),
        68 => Some(Vk::End),
        69 => Some(Vk::PageDown),
        70 => Some(Vk::PageUp),
        71 => Some(Vk::Left),
        72 => Some(Vk::Up),
        73 => Some(Vk::Right),
        74 => Some(Vk::Down),
        75 => Some(Vk::Back),
        76 => Some(Vk::Return),
        77 => Some(Vk::Space),
        78 => Some(Vk::Compose),
        79 => Some(Vk::Caret),
        80 => Some(Vk::Numlock),
        81 => Some(Vk::Numpad0),
        82 => Some(Vk::Numpad1),
        83 => Some(Vk::Numpad2),
        84 => Some(Vk::Numpad3),
        85 => Some(Vk::Numpad4),
        86 => Some(Vk::Numpad5),
        87 => Some(Vk::Numpad6),
        88 => Some(Vk::Numpad7),
        89 => Some(Vk::Numpad8),
        90 => Some(Vk::Numpad9),
        91 => Some(Vk::NumpadAdd),
        92 => Some(Vk::NumpadDivide),
        93 => Some(Vk::NumpadDecimal),
        94 => Some(Vk::NumpadComma),
        95 => Some(Vk::NumpadEnter),
        96 => Some(Vk::NumpadEquals),
        97 => Some(Vk::NumpadMultiply),
        98 => Some(Vk::NumpadSubtract),
        99 => Some(Vk::AbntC1),
        100 => Some(Vk::AbntC2),
        101 => Some(Vk::Apostrophe),
        102 => Some(Vk::Apps),
        103 => Some(Vk::Asterisk),
        104 => Some(Vk::At),
        105 => Some(Vk::Ax),
        106 => Some(Vk::Backslash),
        107 => Some(Vk::Calculator),
        108 => Some(Vk::Capital),
        109 => Some(Vk::Colon),
        110 => Some(Vk::Comma),
        111 => Some(Vk::Convert),
        112 => Some(Vk::Equals),
        113 => Some(Vk::Grave),
        114 => Some(Vk::Kana),
        115 => Some(Vk::Kanji),
        116 => Some(Vk::LAlt),
        117 => Some(Vk::LBracket),
        118 => Some(Vk::LControl),
        119 => Some(Vk::LShift),
        120 => Some(Vk::LWin),
        121 => Some(Vk::Mail),
        122 => Some(Vk::MediaSelect),
        123 => Some(Vk::MediaStop),
        124 => Some(Vk::Minus),
        125 => Some(Vk::Mute),
        126 => Some(Vk::MyComputer),
        127 => Some(Vk::NavigateForward),
        128 => Some(Vk::NavigateBackward),
        129 => Some(Vk::NextTrack),
        130 => Some(Vk::NoConvert),
        131 => Some(Vk::OEM102),
        132 => Some(Vk::Period),
        133 => Some(Vk::PlayPause),
        134 => Some(Vk::Plus),
        135 => Some(Vk::Power),
        136 => Some(Vk::PrevTrack),
        137 => Some(Vk::RAlt),
        138 => Some(Vk::RBracket),
        139 => Some(Vk::RControl),
        140 => Some(Vk::RShift),
        141 => Some(Vk::RWin),
        142 => Some(Vk::Semicolon),
        143 => Some(Vk::Slash),
        144 => Some(Vk::Sleep),
        145 => Some(Vk::Stop),
        146 => Some(Vk::Sysrq),
        147 => Some(Vk::Tab),
        148 => Some(Vk::Underline),
        149 => Some(Vk::Unlabeled),
        150 => Some(Vk::VolumeDown),
        151 => Some(Vk::VolumeUp),
        152 => Some(Vk::Wake),
        153 => Some(Vk::WebBack),
        154 => Some(Vk::WebFavorites),
        155 => Some(Vk::WebForward),
        156 => Some(Vk::WebHome),
        157 => Some(Vk::WebRefresh),
        158 => Some(Vk::WebSearch),
        159 => Some(Vk::WebStop),
        160 => Some(Vk::Yen),
        161 => Some(Vk::Copy),
        162 => Some(Vk::Paste),
        163 => Some(Vk::Cut),
        _ => None,
    }
}

/// Every virtual key code is named back by its own scancode.
pub proof fn lemma_key_round_trip(k: Vk)
    ensures
        1 <= scancode_of_key(k) <= SC_MAX,
        key_of_scancode(scancode_of_key(k)) == Some(k),
{
}

/// Every scancode in `1..=163` names a key whose scancode is that number.
pub proof fn lemma_scancode_round_trip(sc: u16)
    requires
        1 <= sc <= SC_MAX,
    ensures
        key_of_scancode(sc) is Some,
        scancode_of_key(key_of_scancode(sc)->0) == sc,
{
}

/// No two distinct virtual key codes share a scancode.
pub proof fn lemma_scancodes_unique(a: Vk, b: Vk)
    ensures
        scancode_of_key(a) == scancode_of_key(b) ==> a == b,
{
    lemma_key_round_trip(a);
    lemma_key_round_trip(b);
}

/// Scancode `0` and every scancode above `163` name no key.
pub proof fn lemma_unassigned_scancodes(sc: u16)
    requires
        sc == SC_INVALID || sc > SC_MAX,
    ensures
        key_of_scancode(sc) is None,
{
}

/// Undoes winit's switching of keycode and scancode by returning a made-up
/// scancode (used only by this crate) from a virtual key code.
pub fn winit_vkey_to_arbitrary_scancode(keycode: Vk) -> (sc: u16)
    ensures
        sc == scancode_of_key(keycode),
        1 <= sc <= SC_MAX,
        key_of_scancode(sc) == Some(keycode),
{
    match keycode {
        Vk::Key1 => 1,
        Vk::Key2 => 2,
        Vk::Key3 => 3,
        Vk::Key4 => 4,
        Vk::Key5 => 5,
        Vk::Key6 => 6,
        Vk::Key7 => 7,
        Vk::Key8 => 8,
        Vk::Key9 => 9,
        Vk::Key0 => 10,
        Vk::A => 11,
        Vk::B => 12,
        Vk::C => 13,
        Vk::D => 14,
        Vk::E => 15,
        Vk::F => 16,
        Vk::G => 17,
        Vk::H => 18,
        Vk::I => 19,
        Vk::J => 20,
        Vk::K => 21,
        Vk::L => 22,
        Vk::M => 23,
        Vk::N => 24,
        Vk::O => 25,
        Vk::P => 26,
        Vk::Q => 27,
        Vk::R => 28,
        Vk::S => 29,
        Vk::T => 30,
        Vk::U => 31,
        Vk::V => 32,
        Vk::W => 33,
        Vk::X => 34,
        Vk::Y => 35,
        Vk::Z => 36,
        Vk::Escape => 37,
        Vk::F1 => 38,
        Vk::F2 => 39,
        Vk::F3 => 40,
        Vk::F4 => 41,
        Vk::F5 => 42,
        Vk::F6 => 43,
        Vk::F7 => 44,
        Vk::F8 => 45,
        Vk::F9 => 46,
        Vk::F10 => 47,
        Vk::F11 => 48,
        Vk::F12 => 49,
        Vk::F13 => 50,
        Vk::F14 => 51,
        Vk::F15 => 52,
        Vk::F16 => 53,
        Vk::F17 => 54,
        Vk::F18 => 55,
        Vk::F19 => 56,
        Vk::F20 => 57,
        Vk::F21 => 58,
        Vk::F22 => 59,
        Vk::F23 => 60,
        Vk::F24 => 61,
        Vk::Snapshot => 62,
        Vk::Scroll => 63,
        Vk::Pause => 64,
        Vk::Insert => 65,
        Vk::Home => 66,
        Vk::Delete => 67,
        Vk::End => 68,
        Vk::PageDown => 69,
        Vk::PageUp => 70,
        Vk::Left => 71,
        Vk::Up => 72,
        Vk::Right => 73,
        Vk::Down => 74,
        Vk::Back => 75,
        Vk::Return => 76,
        Vk::Space => 77,
        Vk::Compose => 78,
        Vk::Caret => 79,
        Vk::Numlock => 80,
        Vk::Numpad0 => 81,
        Vk::Numpad1 => 82,
        Vk::Numpad2 => 83,
        Vk::Numpad3 => 84,
        Vk::Numpad4 => 85,
        Vk::Numpad5 => 86,
        Vk::Numpad6 => 87,
        Vk::Numpad7 => 88,
        Vk::Numpad8 => 89,
        Vk::Numpad9 => 90,
        Vk::NumpadAdd => 91,
        Vk::NumpadDivide => 92,
        Vk::NumpadDecimal => 93,
        Vk::NumpadComma => 94,
        Vk::NumpadEnter => 95,
        Vk::NumpadEquals => 96,
        Vk::NumpadMultiply => 97,
        Vk::NumpadSubtract => 98,
        Vk::AbntC1 => 99,
        Vk::AbntC2 => 100,
        Vk::Apostrophe => 101,
        Vk::Apps => 102,
        Vk::Asterisk => 103,
        Vk::At => 104,
        Vk::Ax => 105,
        Vk::Backslash => 106,
        Vk::Calculator => 107,
        Vk::Capital => 108,
        Vk::Colon => 109,
        Vk::Comma => 110,
        Vk::Convert => 111,
        Vk::Equals => 112,
        Vk::Grave => 113,
        Vk::Kana => 114,
        Vk::Kanji => 115,
        Vk::LAlt => 116,
        Vk::LBracket => 117,
        Vk::LControl => 118,
        Vk::LShift => 119,
        Vk::LWin => 120,
        Vk::Mail => 121,
        Vk::MediaSelect => 122,
        Vk::MediaStop => 123,
        Vk::Minus => 124,
        Vk::Mute => 125,
        Vk::MyComputer => 126,
        Vk::NavigateForward => 127,
        Vk::NavigateBackward => 128,
        Vk::NextTrack => 129,
        Vk::NoConvert => 130,
        Vk::OEM102 => 131,
        Vk::Period => 132,
        Vk::PlayPause => 133,
        Vk::Plus => 134,
        Vk::Power => 135,
        Vk::PrevTrack => 136,
        Vk::RAlt => 137,
        Vk::RBracket => 138,
        Vk::RControl => 139,
        Vk::RShift => 140,
        Vk::RWin => 141,
        Vk::Semicolon => 142,
        Vk::Slash => 143,
        Vk::Sleep => 144,
        Vk::Stop => 145,
        Vk::Sysrq => 146,
        Vk::Tab => 147,
        Vk::Underline => 148,
        Vk::Unlabeled => 149,
        Vk::VolumeDown => 150,
        Vk::VolumeUp => 151,
        Vk::Wake => 152,
        Vk::WebBack => 153,
        Vk::WebFavorites => 154,
        Vk::WebForward => 155,
        Vk::WebHome => 156,
        Vk::WebRefresh => 157,
        Vk::WebSearch => 158,
        Vk::WebStop => 159,
        Vk::Yen => 160,
        Vk::Copy => 161,
        Vk::Paste => 162,
        Vk::Cut => 163,
    }
}

/// Returns the virtual key code named by one of the made-up scancodes of this
/// crate, or `None` for `0` and for every scancode above `163`.
pub fn arbitrary_scancode_to_winit_vkey(scancode: u16) -> (k: Option<Vk>)
    ensures
        k == key_of_scancode(scancode),
        k is Some <==> 1 <= scancode <= SC_MAX,
        k is Some ==> scancode_of_key(k->0) == scancode,
{
    match scancode {
        1 => Some(Vk::Key1),
        2 => Some(Vk::Key2),
        3 => Some(Vk::Key3),
        4 => Some(Vk::Key4),
        5 => Some(Vk::Key5),
        6 => Some(Vk::Key6),
        7 => Some(Vk::Key7),
        8 => Some(Vk::Key8),
        9 => Some(Vk::Key9),
        10 => Some(Vk::Key0),
        11 => Some(Vk::A),
        12 => Some(Vk::B),
        13 => Some(Vk::C),
        14 => Some(Vk::D),
        15 => Some(Vk::E),
        16 => Some(Vk::F),
        17 => Some(Vk::G),
        18 => Some(Vk::H),
        19 => Some(Vk::I),
        20 => Some(Vk::J),
        21 => Some(Vk::K),
        22 => Some(Vk::L),
        23 => Some(Vk::M),
        24 => Some(Vk::N),
        25 => Some(Vk::O),
        26 => Some(Vk::P),
        27 => Some(Vk::Q),
        28 => Some(Vk::R),
        29 => Some(Vk::S),
        30 => Some(Vk::T),
        31 => Some(Vk::U),
        32 => Some(Vk::V),
        33 => Some(Vk::W),
        34 => Some(Vk::X),
        35 => Some(Vk::Y),
        36 => Some(Vk::Z),
        37 => Some(Vk::Escape),
        38 => Some(Vk::F1),
        39 => Some(Vk::F2),
        40 => Some(Vk::F3),
        41 => Some(Vk::F4),
        42 => Some(Vk::F5),
        43 => Some(Vk::F6),
        44 => Some(Vk::F7),
        45 => Some(Vk::F8),
        46 => Some(Vk::F9),
        47 => Some(Vk::F10),
        48 => Some(Vk::F11),
        49 => Some(Vk::F12),
        50 => Some(Vk::F13),
        51 => Some(Vk::F14),
        52 => Some(Vk::F15),
        53 => Some(Vk::F16),
        54 => Some(Vk::F17),
        55 => Some(Vk::F18),
        56 => Some(Vk::F19),
        57 => Some(Vk::F20),
        58 => Some(Vk::F21),
        59 => Some(Vk::F22),
        60 => Some(Vk::F23),
        61 => Some(Vk::F24),
        62 => Some(Vk::Snapshot),
        63 => Some(Vk::Scroll),
        64 => Some(Vk::Pause),
        65 => Some(Vk::Insert),
        66 => Some(Vk::Home),
        67 => Some(Vk::Delete),
        68 => Some(Vk::End),
        69 => Some(Vk::PageDown),
        70 => Some(Vk::PageUp),
        71 => Some(Vk::Left),
        72 => Some(Vk::Up),
        73 => Some(Vk::Right),
        74 => Some(Vk::Down),
        75 => Some(Vk::Back),
        76 => Some(Vk::Return),
        77 => Some(Vk::Space),
        78 => Some(Vk::Compose),
        79 => Some(Vk::Caret),
        80 => Some(Vk::Numlock),
        81 => Some(Vk::Numpad0),
        82 => Some(Vk::Numpad1),
        83 => Some(Vk::Numpad2),
        84 => Some(Vk::Numpad3),
        85 => Some(Vk::Numpad4),
        86 => Some(Vk::Numpad5),
        87 => Some(Vk::Numpad6),
        88 => Some(Vk::Numpad7),
        89 => Some(Vk::Numpad8),
        90 => Some(Vk::Numpad9),
        91 => Some(Vk::NumpadAdd),
        92 => Some(Vk::NumpadDivide),
        93 => Some(Vk::NumpadDecimal),
        94 => Some(Vk::NumpadComma),
        95 => Some(Vk::NumpadEnter),
        96 => Some(Vk::NumpadEquals),
        97 => Some(Vk::NumpadMultiply),
        98 => Some(Vk::NumpadSubtract),
        99 => Some(Vk::AbntC1),
        100 => Some(Vk::AbntC2),
        101 => Some(Vk::Apostrophe),
        102 => Some(Vk::Apps),
        103 => Some(Vk::Asterisk),
        104 => Some(Vk::At),
        105 => Some(Vk::Ax),
        106 => Some(Vk::Backslash),
        107 => Some(Vk::Calculator),
        108 => Some(Vk::Capital),
        109 => Some(Vk::Colon),
        110 => Some(Vk::Comma),
        111 => Some(Vk::Convert),
        112 => Some(Vk::Equals),
        113 => Some(Vk::Grave),
        114 => Some(Vk::Kana),
        115 => Some(Vk::Kanji),
        116 => Some(Vk::LAlt),
        117 => Some(Vk::LBracket),
        118 => Some(Vk::LControl),
        119 => Some(Vk::LShift),
        120 => Some(Vk::LWin),
        121 => Some(Vk::Mail),
        122 => Some(Vk::MediaSelect),
        123 => Some(Vk::MediaStop),
        124 => Some(Vk::Minus),
        125 => Some(Vk::Mute),
        126 => Some(Vk::MyComputer),
        127 => Some(Vk::NavigateForward),
        128 => Some(Vk::NavigateBackward),
        129 => Some(Vk::NextTrack),
        130 => Some(Vk::NoConvert),
        131 => Some(Vk::OEM102),
        132 => Some(Vk::Period),
        133 => Some(Vk::PlayPause),
        134 => Some(Vk::Plus),
        135 => Some(Vk::Power),
        136 => Some(Vk::PrevTrack),
        137 => Some(Vk::RAlt),
        138 => Some(Vk::RBracket),
        139 => Some(Vk::RControl),
        140 => Some(Vk::RShift),
        141 => Some(Vk::RWin),
        142 => Some(Vk::Semicolon),
        143 => Some(Vk::Slash),
        144 => Some(Vk::Sleep),
        145 => Some(Vk::Stop),
        146 => Some(Vk::Sysrq),
        147 => Some(Vk::Tab),
        148 => Some(Vk::Underline),
        149 => Some(Vk::Unlabeled),
        150 => Some(Vk::VolumeDown),
        151 => Some(Vk::VolumeUp),
        152 => Some(Vk::Wake),
        153 => Some(Vk::WebBack),
        154 => Some(Vk::WebFavorites),
        155 => Some(Vk::WebForward),
        156 => Some(Vk::WebHome),
        157 => Some(Vk::WebRefresh),
        158 => Some(Vk::WebSearch),
        159 => Some(Vk::WebStop),
        160 => Some(Vk::Yen),
        161 => Some(Vk::Copy),
        162 => Some(Vk::Paste),
        163 => Some(Vk::Cut),
        _ => None,
    }
}

/// The scancode of a key map, given the virtual key code that the key map
/// was resolved to: that key's scancode, or `SC_INVALID` where the key map
/// resolved to none.
pub fn key_map_to_arbitrary_scancode(vkey: Option<Vk>) -> (sc: u16)
    ensures
        sc == match vkey {
            Some(k) => scancode_of_key(k),
            None => SC_INVALID,
        },
{
    match vkey {
        Some(vk) => winit_vkey_to_arbitrary_scancode(vk),
        None => SC_INVALID,
    }
}

} // verus!
