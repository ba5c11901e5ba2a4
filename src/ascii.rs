//! Reconstruction of winit's virtual key codes from the legacy `keyCode`
//! numbers that browsers report, which winit hands on in place of a scancode.
//! `keyCode` was never standardized; the table follows what browsers are
//! observed to send. Several numbers give the same key, and most give none.

use vstd::prelude::*;
use winit::event::VirtualKeyCode as Vk;

verus! {

/// The virtual key code that a browser `keyCode` number stands for, if any.
pub open spec fn key_of_ascii(ascii: u8) -> Option<Vk> {
    match ascii {
        /* 0 => None, */
        3 => Some(Vk::Pause), // also 19
        8 => Some(Vk::Back),
        9 => Some(Vk::Tab),
        12 => Some(Vk::Numlock),
        13 => Some(Vk::Return),
        16 => Some(Vk::LShift),
        17 => Some(Vk::LControl),
        18 => Some(Vk::LAlt),
        19 => Some(Vk::Pause), // also 3
        20 => Some(Vk::Capital),
        /* 21 => Lang1, */
        /* 25 => Lang2, */
        27 => Some(Vk::Escape),
        28 => Some(Vk::Convert),
        29 => Some(Vk::NoConvert),
        32 => Some(Vk::Space),
        33 => Some(Vk::Numpad9),
        34 => Some(Vk::Numpad3),
        35 => Some(Vk::Numpad1),
        36 => Some(Vk::Numpad7),
        37 => Some(Vk::Left),
        38 => Some(Vk::Up),
        39 => Some(Vk::Right),
        40 => Some(Vk::Down),
        /* 41 => select */
        /* 42 => print */
        /* 43 => execute */
        44 => Some(Vk::F13),
        45 => Some(Vk::Numpad0),
        46 => Some(Vk::NumpadDecimal),
        /* 47 => help, */
        48 => Some(Vk::Key0),
        49 => Some(Vk::Key1),
        50 => Some(Vk::Key2),
        51 => Some(Vk::Key3),
        52 => Some(Vk::Key4),
        53 => Some(Vk::Key5),
        54 => Some(Vk::Key6),
        55 => Some(Vk::Key7),
        56 => Some(Vk::Key8),
        57 => Some(Vk::Key9),
        58 => Some(Vk::Period),
        59 => Some(Vk::Semicolon),
        60 => Some(Vk::Grave),
        61 => Some(Vk::Equals),
        63 => Some(Vk::Minus),
        65 => Some(Vk::A),
        66 => Some(Vk::B),
        67 => Some(Vk::C),
        68 => Some(Vk::D),
        69 => Some(Vk::E),
        70 => Some(Vk::F),
        71 => Some(Vk::G),
        72 => Some(Vk::H),
        73 => Some(Vk::I),
        74 => Some(Vk::J),
        75 => Some(Vk::K),
        76 => Some(Vk::L),
        77 => Some(Vk::M),
        78 => Some(Vk::N),
        79 => Some(Vk::O),
        80 => Some(Vk::P),
        81 => Some(Vk::Q),
        82 => Some(Vk::R),
        83 => Some(Vk::S),
        84 => Some(Vk::T),
        85 => Some(Vk::U),
        86 => Some(Vk::V),
        87 => Some(Vk::W),
        88 => Some(Vk::X),
        89 => Some(Vk::Y),
        90 => Some(Vk::Z),
        91 => Some(Vk::LWin),
        92 => Some(Vk::RWin),
        93 => Some(Vk::Apps),
        95 => Some(Vk::Sleep),
        96 => Some(Vk::Numpad0),
        97 => Some(Vk::Numpad1),
        98 => Some(Vk::Numpad2),
        99 => Some(Vk::Numpad3),
        100 => Some(Vk::Numpad4),
        101 => Some(Vk::Numpad5),
        102 => Some(Vk::Numpad6),
        103 => Some(Vk::Numpad7),
        104 => Some(Vk::Numpad8),
        105 => Some(Vk::Numpad9),
        106 => Some(Vk::NumpadMultiply),
        107 => Some(Vk::NumpadAdd),
        108 => Some(Vk::NumpadDecimal),
        109 => Some(Vk::NumpadSubtract),
        110 => Some(Vk::NumpadDecimal),
        111 => Some(Vk::NumpadDivide),
        112 => Some(Vk::F1),
        113 => Some(Vk::F2),
        114 => Some(Vk::F3),
        115 => Some(Vk::F4),
        116 => Some(Vk::F5),
        117 => Some(Vk::F6),
        118 => Some(Vk::F7),
        119 => Some(Vk::F8),
        120 => Some(Vk::F9),
        121 => Some(Vk::F10),
        122 => Some(Vk::F11),
        123 => Some(Vk::F12),
        124 => Some(Vk::F13),
        125 => Some(Vk::F14),
        126 => Some(Vk::F15),
        127 => Some(Vk::F16),
        128 => Some(Vk::F17),
        129 => Some(Vk::F18),
        130 => Some(Vk::F19),
        131 => Some(Vk::F20),
        132 => Some(Vk::F21),
        133 => Some(Vk::F22),
        134 => Some(Vk::F23),
        135 => Some(Vk::F24),
        /* 136 => F25, */
        /* 137 => F26, */
        /* 138 => F27, */
        /* 139 => F28, */
        /* 140 => F29, */
        /* 141 => F30, */
        /* 142 => F31, */
        /* 143 => F32, */
        144 => Some(Vk::Numlock),
        145 => Some(Vk::Scroll),
        160 => Some(Vk::LBracket),
        161 => Some(Vk::RBracket),
        163 => Some(Vk::Grave),
        164 => Some(Vk::Backslash),
        169 => Some(Vk::Minus),
        170 => Some(Vk::Backslash),
        /* 171 => wtf? */
        172 => Some(Vk::Home),
        173 => Some(Vk::Minus),
        174 => Some(Vk::VolumeDown),
        175 => Some(Vk::VolumeUp),
        176 => Some(Vk::NextTrack),
        177 => Some(Vk::PrevTrack),
        178 => Some(Vk::Stop),
        179 => Some(Vk::PlayPause),
        180 => Some(Vk::Mail),
        181 => Some(Vk::Mute),
        182 => Some(Vk::VolumeDown),
        183 => Some(Vk::VolumeUp),
        186 => Some(Vk::Semicolon),
        187 => Some(Vk::Equals),
        188 => Some(Vk::Comma),
        189 => Some(Vk::Minus),
        190 => Some(Vk::Period),
        191 => Some(Vk::Slash),
        192 => Some(Vk::Grave),
        /* 193 => IntlRo, */
        194 => Some(Vk::NumpadComma),
        219 => Some(Vk::LBracket),
        220 => Some(Vk::Backslash),
        221 => Some(Vk::RBracket),
        222 => Some(Vk::Apostrophe),
        223 => Some(Vk::Grave),
        224 => Some(Vk::LWin),
        225 => Some(Vk::RAlt),
        226 => Some(Vk::OEM102),
        /* 230 => GNOME Compose Key, */
        /* 231 => ç, */
        233 => Some(Vk::NavigateBackward),
        234 => Some(Vk::NavigateForward),
        235 => Some(Vk::NoConvert),
        242 => Some(Vk::Kana),
        /* 243 => hiragana/katakana, */
        244 => Some(Vk::Kanji),
        /* 251 => unlock track pad, */
        /* 255 => WakeUp, */
        _ => None,
    }
}

/// Undoes winit's switching of keycode and scancode by returning a best guess
/// at a virtual key code from a `keyCode` number given by the browser.
pub fn ascii_to_keycode(ascii: u8) -> (r: Option<Vk>)
    ensures
        r == key_of_ascii(ascii),
{
    Some(match ascii {
        3 => Vk::Pause,
        8 => Vk::Back,
        9 => Vk::Tab,
        12 => Vk::Numlock,
        13 => Vk::Return,
        16 => Vk::LShift,
        17 => Vk::LControl,
        18 => Vk::LAlt,
        19 => Vk::Pause,
        20 => Vk::Capital,
        27 => Vk::Escape,
        28 => Vk::Convert,
        29 => Vk::NoConvert,
        32 => Vk::Space,
        33 => Vk::Numpad9,
        34 => Vk::Numpad3,
        35 => Vk::Numpad1,
        36 => Vk::Numpad7,
        37 => Vk::Left,
        38 => Vk::Up,
        39 => Vk::Right,
        40 => Vk::Down,
        44 => Vk::F13,
        45 => Vk::Numpad0,
        46 => Vk::NumpadDecimal,
        48 => Vk::Key0,
        49 => Vk::Key1,
        50 => Vk::Key2,
        51 => Vk::Key3,
        52 => Vk::Key4,
        53 => Vk::Key5,
        54 => Vk::Key6,
        55 => Vk::Key7,
        56 => Vk::Key8,
        57 => Vk::Key9,
        58 => Vk::Period,
        59 => Vk::Semicolon,
        60 => Vk::Grave,
        61 => Vk::Equals,
        63 => Vk::Minus,
        65 => Vk::A,
        66 => Vk::B,
        67 => Vk::C,
        68 => Vk::D,
        69 => Vk::E,
        70 => Vk::F,
        71 => Vk::G,
        72 => Vk::H,
        73 => Vk::I,
        74 => Vk::J,
        75 => Vk::K,
        76 => Vk::L,
        77 => Vk::M,
        78 => Vk::N,
        79 => Vk::O,
        80 => Vk::P,
        81 => Vk::Q,
        82 => Vk::R,
        83 => Vk::S,
        84 => Vk::T,
        85 => Vk::U,
        86 => Vk::V,
        87 => Vk::W,
        88 => Vk::X,
        89 => Vk::Y,
        90 => Vk::Z,
        91 => Vk::LWin,
        92 => Vk::RWin,
        93 => Vk::Apps,
        95 => Vk::Sleep,
        96 => Vk::Numpad0,
        97 => Vk::Numpad1,
        98 => Vk::Numpad2,
        99 => Vk::Numpad3,
        100 => Vk::Numpad4,
        101 => Vk::Numpad5,
        102 => Vk::Numpad6,
        103 => Vk::Numpad7,
        104 => Vk::Numpad8,
        105 => Vk::Numpad9,
        106 => Vk::NumpadMultiply,
        107 => Vk::NumpadAdd,
        108 => Vk::NumpadDecimal,
        109 => Vk::NumpadSubtract,
        110 => Vk::NumpadDecimal,
        111 => Vk::NumpadDivide,
        112 => Vk::F1,
        113 => Vk::F2,
        114 => Vk::F3,
        115 => Vk::F4,
        116 => Vk::F5,
        117 => Vk::F6,
        118 => Vk::F7,
        119 => Vk::F8,
        120 => Vk::F9,
        121 => Vk::F10,
        122 => Vk::F11,
        123 => Vk::F12,
        124 => Vk::F13,
        125 => Vk::F14,
        126 => Vk::F15,
        127 => Vk::F16,
        128 => Vk::F17,
        129 => Vk::F18,
        130 => Vk::F19,
        131 => Vk::F20,
        132 => Vk::F21,
        133 => Vk::F22,
        134 => Vk::F23,
        135 => Vk::F24,
        144 => Vk::Numlock,
        145 => Vk::Scroll,
        160 => Vk::LBracket,
        161 => Vk::RBracket,
        163 => Vk::Grave,
        164 => Vk::Backslash,
        169 => Vk::Minus,
        170 => Vk::Backslash,
        172 => Vk::Home,
        173 => Vk::Minus,
        174 => Vk::VolumeDown,
        175 => Vk::VolumeUp,
        176 => Vk::NextTrack,
        177 => Vk::PrevTrack,
        178 => Vk::Stop,
        179 => Vk::PlayPause,
        180 => Vk::Mail,
        181 => Vk::Mute,
        182 => Vk::VolumeDown,
        183 => Vk::VolumeUp,
        186 => Vk::Semicolon,
        187 => Vk::Equals,
        188 => Vk::Comma,
        189 => Vk::Minus,
        190 => Vk::Period,
        191 => Vk::Slash,
        192 => Vk::Grave,
        194 => Vk::NumpadComma,
        219 => Vk::LBracket,
        220 => Vk::Backslash,
        221 => Vk::RBracket,
        222 => Vk::Apostrophe,
        223 => Vk::Grave,
        224 => Vk::LWin,
        225 => Vk::RAlt,
        226 => Vk::OEM102,
        233 => Vk::NavigateBackward,
        234 => Vk::NavigateForward,
        235 => Vk::NoConvert,
        242 => Vk::Kana,
        244 => Vk::Kanji,
        _ => return None,
    })
}

} // verus!
