//! Translation of winit's virtual key codes to W3C key codes, the
//! layout-independent codes of browser keyboard events.

use vstd::prelude::*;
use keycode::{KeyMapping, KeyMappingCode as Km};
use winit::event::VirtualKeyCode as Vk;
use crate::scancode::{arbitrary_scancode_to_winit_vkey, key_of_scancode};

verus! {

/// The W3C key code of each virtual key code; `None` where the key has no
/// such code. `NavigateForward` and `NavigateBackward` both give
/// `BrowserForward`.
pub open spec fn key_mapping_code_of(k: Vk) -> Option<Km> {
    match k {
        Vk::Key0 => Some(Km::Digit0),
        Vk::Key1 => Some(Km::Digit1),
        Vk::Key2 => Some(Km::Digit2),
        Vk::Key3 => Some(Km::Digit3),
        Vk::Key4 => Some(Km::Digit4),
        Vk::Key5 => Some(Km::Digit5),
        Vk::Key6 => Some(Km::Digit6),
        Vk::Key7 => Some(Km::Digit7),
        Vk::Key8 => Some(Km::Digit8),
        Vk::Key9 => Some(Km::Digit9),

        Vk::A => Some(Km::KeyA),
        Vk::B => Some(Km::KeyB),
        Vk::C => Some(Km::KeyC),
        Vk::D => Some(Km::KeyD),
        Vk::E => Some(Km::KeyE),
        Vk::F => Some(Km::KeyF),
        Vk::G => Some(Km::KeyG),
        Vk::H => Some(Km::KeyH),
        Vk::I => Some(Km::KeyI),
        Vk::J => Some(Km::KeyJ),
        Vk::K => Some(Km::KeyK),
        Vk::L => Some(Km::KeyL),
        Vk::M => Some(Km::KeyM),
        Vk::N => Some(Km::KeyN),
        Vk::O => Some(Km::KeyO),
        Vk::P => Some(Km::KeyP),
        Vk::Q => Some(Km::KeyQ),
        Vk::R => Some(Km::KeyR),
        Vk::S => Some(Km::KeyS),
        Vk::T => Some(Km::KeyT),
        Vk::U => Some(Km::KeyU),
        Vk::V => Some(Km::KeyV),
        Vk::W => Some(Km::KeyW),
        Vk::X => Some(Km::KeyX),
        Vk::Y => Some(Km::KeyY),
        Vk::Z => Some(Km::KeyZ),

        Vk::Escape => Some(Km::Escape),

        Vk::F1 => Some(Km::F1),
        Vk::F2 => Some(Km::F2),
        Vk::F3 => Some(Km::F3),
        Vk::F4 => Some(Km::F4),
        Vk::F5 => Some(Km::F5),
        Vk::F6 => Some(Km::F6),
        Vk::F7 => Some(Km::F7),
        Vk::F8 => Some(Km::F8),
        Vk::F9 => Some(Km::F9),
        Vk::F10 => Some(Km::F10),
        Vk::F11 => Some(Km::F11),
        Vk::F12 => Some(Km::F12),
        Vk::F13 => Some(Km::F13),
        Vk::F14 => Some(Km::F14),
        Vk::F15 => Some(Km::F15),
        Vk::F16 => Some(Km::F16),
        Vk::F17 => Some(Km::F17),
        Vk::F18 => Some(Km::F18),
        Vk::F19 => Some(Km::F19),
        Vk::F20 => Some(Km::F20),
        Vk::F21 => Some(Km::F21),
        Vk::F22 => Some(Km::F22),
        Vk::F23 => Some(Km::F23),
        Vk::F24 => Some(Km::F24),

        // Vk::Snapshot => , // `PrintScreen` maps to `Sysrq`
        Vk::Scroll => Some(Km::ScrollLock),
        Vk::Pause => Some(Km::Pause),

        Vk::Insert => Some(Km::Insert),
        Vk::Home => Some(Km::Home),
        Vk::Delete => Some(Km::Delete),
        Vk::End => Some(Km::End),
        Vk::PageDown => Some(Km::PageDown),
        Vk::PageUp => Some(Km::PageUp),

        Vk::Left => Some(Km::ArrowLeft),
        Vk::Up => Some(Km::ArrowUp),
        Vk::Right => Some(Km::ArrowRight),
        Vk::Down => Some(Km::ArrowDown),

        Vk::Back => Some(Km::Backspace),
        Vk::Return => Some(Km::Enter),
        Vk::Space => Some(Km::Space),

        // Vk::Compose => ,

        // Vk::Caret => ,

        //
        Vk::Numlock => Some(Km::NumLock),
        Vk::Numpad0 => Some(Km::Numpad0),
        Vk::Numpad1 => Some(Km::Numpad1),
        Vk::Numpad2 => Some(Km::Numpad2),
        Vk::Numpad3 => Some(Km::Numpad3),
        Vk::Numpad4 => Some(Km::Numpad4),
        Vk::Numpad5 => Some(Km::Numpad5),
        Vk::Numpad6 => Some(Km::Numpad6),
        Vk::Numpad7 => Some(Km::Numpad7),
        Vk::Numpad8 => Some(Km::Numpad8),
        Vk::Numpad9 => Some(Km::Numpad9),
        Vk::NumpadAdd => Some(Km::NumpadAdd),
        Vk::NumpadDivide => Some(Km::NumpadDivide),
        Vk::NumpadDecimal => Some(Km::NumpadDecimal),
        Vk::NumpadComma => Some(Km::NumpadComma),
        Vk::NumpadEnter => Some(Km::NumpadEnter),
        Vk::NumpadEquals => Some(Km::NumpadEqual),
        Vk::NumpadMultiply => Some(Km::NumpadMultiply),
        Vk::NumpadSubtract => Some(Km::NumpadSubtract),

        // Vk::AbntC1 => ,
        // Vk::AbntC2 => ,
        Vk::Apostrophe => Some(Km::Quote),
        Vk::Apps => Some(Km::ContextMenu),
        // Vk::Asterisk => ,
        // Vk::At => ,
        // Vk::Ax => ,
        Vk::Backslash => Some(Km::Backslash),
        Vk::Calculator => Some(Km::LaunchApp2),
        Vk::Capital => Some(Km::CapsLock),
        // Vk::Colon => ,
        Vk::Comma => Some(Km::Comma),
        Vk::Convert => Some(Km::Convert),
        Vk::Equals => Some(Km::Equal),
        Vk::Grave => Some(Km::Backquote),
        Vk::Kana => Some(Km::KanaMode),
        Vk::Kanji => Some(Km::Backquote),
        Vk::LAlt => Some(Km::AltLeft),
        Vk::LBracket => Some(Km::BracketLeft),
        Vk::LControl => Some(Km::ControlLeft),
        Vk::LShift => Some(Km::ShiftLeft),
        Vk::LWin => Some(Km::MetaLeft),
        Vk::Mail => Some(Km::LaunchMail),
        Vk::MediaSelect => Some(Km::MediaSelect),
        Vk::MediaStop => Some(Km::MediaStop),
        Vk::Minus => Some(Km::Minus),
        Vk::Mute => Some(Km::AudioVolumeMute),
        Vk::MyComputer => Some(Km::LaunchApp1),
        Vk::NavigateForward => Some(Km::BrowserForward),
        Vk::NavigateBackward => Some(Km::BrowserForward),
        Vk::NextTrack => Some(Km::MediaTrackNext),
        Vk::NoConvert => Some(Km::NonConvert),
        Vk::OEM102 => Some(Km::IntlBackslash),
        Vk::Period => Some(Km::Period),
        Vk::PlayPause => Some(Km::MediaPlayPause),
        // Vk::Plus => ,
        Vk::Power => Some(Km::Power),
        Vk::PrevTrack => Some(Km::MediaTrackPrevious),
        Vk::RAlt => Some(Km::AltRight),
        Vk::RBracket => Some(Km::BracketRight),
        Vk::RControl => Some(Km::ControlRight),
        Vk::RShift => Some(Km::ShiftRight),
        Vk::RWin => Some(Km::MetaRight),
        Vk::Semicolon => Some(Km::Semicolon),
        Vk::Slash => Some(Km::Slash),
        Vk::Sleep => Some(Km::Sleep),
        // Vk::Stop => ,
        Vk::Sysrq => Some(Km::PrintScreen),
        Vk::Tab => Some(Km::Tab),
        // Vk::Underline => ,
        // Vk::Unlabeled => ,
        Vk::VolumeDown => Some(Km::AudioVolumeDown),
        Vk::VolumeUp => Some(Km::AudioVolumeUp),
        Vk::Wake => Some(Km::WakeUp),
        Vk::WebBack => Some(Km::BrowserBack),
        Vk::WebFavorites => Some(Km::BrowserFavorites),
        Vk::WebForward => Some(Km::BrowserForward),
        Vk::WebHome => Some(Km::BrowserHome),
        Vk::WebRefresh => Some(Km::BrowserRefresh),
        Vk::WebSearch => Some(Km::BrowserSearch),
        Vk::WebStop => Some(Km::BrowserStop),
        Vk::Yen => Some(Km::IntlYen),
        Vk::Copy => Some(Km::Copy),
        Vk::Paste => Some(Km::Paste),
        Vk::Cut => Some(Km::Cut),

        _ => None,
    }
}

/// The W3C key code of the key that a scancode names; `None` where it names
/// no key.
pub open spec fn scancode_key_mapping_code(sc: u16) -> Option<Km> {
    match key_of_scancode(sc) {
        Some(k) => key_mapping_code_of(k),
        None => None,
    }
}

/// Converts a virtual key code to a key mapping by its W3C key code.
pub fn winit_vkey_to_key_mapping(key: Vk) -> (r: KeyMapping)
    ensures
        r == KeyMapping::Code(key_mapping_code_of(key)),
{
    let key_mapping_code = match key {
        Vk::Key0 => Km::Digit0,
        Vk::Key1 => Km::Digit1,
        Vk::Key2 => Km::Digit2,
        Vk::Key3 => Km::Digit3,
        Vk::Key4 => Km::Digit4,
        Vk::Key5 => Km::Digit5,
        Vk::Key6 => Km::Digit6,
        Vk::Key7 => Km::Digit7,
        Vk::Key8 => Km::Digit8,
        Vk::Key9 => Km::Digit9,

        Vk::A => Km::KeyA,
        Vk::B => Km::KeyB,
        Vk::C => Km::KeyC,
        Vk::D => Km::KeyD,
        Vk::E => Km::KeyE,
        Vk::F => Km::KeyF,
        Vk::G => Km::KeyG,
        Vk::H => Km::KeyH,
        Vk::I => Km::KeyI,
        Vk::J => Km::KeyJ,
        Vk::K => Km::KeyK,
        Vk::L => Km::KeyL,
        Vk::M => Km::KeyM,
        Vk::N => Km::KeyN,
        Vk::O => Km::KeyO,
        Vk::P => Km::KeyP,
        Vk::Q => Km::KeyQ,
        Vk::R => Km::KeyR,
        Vk::S => Km::KeyS,
        Vk::T => Km::KeyT,
        Vk::U => Km::KeyU,
        Vk::V => Km::KeyV,
        Vk::W => Km::KeyW,
        Vk::X => Km::KeyX,
        Vk::Y => Km::KeyY,
        Vk::Z => Km::KeyZ,

        Vk::Escape => Km::Escape,

        Vk::F1 => Km::F1,
        Vk::F2 => Km::F2,
        Vk::F3 => Km::F3,
        Vk::F4 => Km::F4,
        Vk::F5 => Km::F5,
        Vk::F6 => Km::F6,
        Vk::F7 => Km::F7,
        Vk::F8 => Km::F8,
        Vk::F9 => Km::F9,
        Vk::F10 => Km::F10,
        Vk::F11 => Km::F11,
        Vk::F12 => Km::F12,
        Vk::F13 => Km::F13,
        Vk::F14 => Km::F14,
        Vk::F15 => Km::F15,
        Vk::F16 => Km::F16,
        Vk::F17 => Km::F17,
        Vk::F18 => Km::F18,
        Vk::F19 => Km::F19,
        Vk::F20 => Km::F20,
        Vk::F21 => Km::F21,
        Vk::F22 => Km::F22,
        Vk::F23 => Km::F23,
        Vk::F24 => Km::F24,

        Vk::Scroll => Km::ScrollLock,
        Vk::Pause => Km::Pause,

        Vk::Insert => Km::Insert,
        Vk::Home => Km::Home,
        Vk::Delete => Km::Delete,
        Vk::End => Km::End,
        Vk::PageDown => Km::PageDown,
        Vk::PageUp => Km::PageUp,

        Vk::Left => Km::ArrowLeft,
        Vk::Up => Km::ArrowUp,
        Vk::Right => Km::ArrowRight,
        Vk::Down => Km::ArrowDown,

        Vk::Back => Km::Backspace,
        Vk::Return => Km::Enter,
        Vk::Space => Km::Space,



        Vk::Numlock => Km::NumLock,
        Vk::Numpad0 => Km::Numpad0,
        Vk::Numpad1 => Km::Numpad1,
        Vk::Numpad2 => Km::Numpad2,
        Vk::Numpad3 => Km::Numpad3,
        Vk::Numpad4 => Km::Numpad4,
        Vk::Numpad5 => Km::Numpad5,
        Vk::Numpad6 => Km::Numpad6,
        Vk::Numpad7 => Km::Numpad7,
        Vk::Numpad8 => Km::Numpad8,
        Vk::Numpad9 => Km::Numpad9,
        Vk::NumpadAdd => Km::NumpadAdd,
        Vk::NumpadDivide => Km::NumpadDivide,
        Vk::NumpadDecimal => Km::NumpadDecimal,
        Vk::NumpadComma => Km::NumpadComma,
        Vk::NumpadEnter => Km::NumpadEnter,
        Vk::NumpadEquals => Km::NumpadEqual,
        Vk::NumpadMultiply => Km::NumpadMultiply,
        Vk::NumpadSubtract => Km::NumpadSubtract,

        Vk::Apostrophe => Km::Quote,
        Vk::Apps => Km::ContextMenu,
        Vk::Backslash => Km::Backslash,
        Vk::Calculator => Km::LaunchApp2,
        Vk::Capital => Km::CapsLock,
        Vk::Comma => Km::Comma,
        Vk::Convert => Km::Convert,
        Vk::Equals => Km::Equal,
        Vk::Grave => Km::Backquote,
        Vk::Kana => Km::KanaMode,
        Vk::Kanji => Km::Backquote,
        Vk::LAlt => Km::AltLeft,
        Vk::LBracket => Km::BracketLeft,
        Vk::LControl => Km::ControlLeft,
        Vk::LShift => Km::ShiftLeft,
        Vk::LWin => Km::MetaLeft,
        Vk::Mail => Km::LaunchMail,
        Vk::MediaSelect => Km::MediaSelect,
        Vk::MediaStop => Km::MediaStop,
        Vk::Minus => Km::Minus,
        Vk::Mute => Km::AudioVolumeMute,
        Vk::MyComputer => Km::LaunchApp1,
        Vk::NavigateForward => Km::BrowserForward,
        Vk::NavigateBackward => Km::BrowserForward,
        Vk::NextTrack => Km::MediaTrackNext,
        Vk::NoConvert => Km::NonConvert,
        Vk::OEM102 => Km::IntlBackslash,
        Vk::Period => Km::Period,
        Vk::PlayPause => Km::MediaPlayPause,
        Vk::Power => Km::Power,
        Vk::PrevTrack => Km::MediaTrackPrevious,
        Vk::RAlt => Km::AltRight,
        Vk::RBracket => Km::BracketRight,
        Vk::RControl => Km::ControlRight,
        Vk::RShift => Km::ShiftRight,
        Vk::RWin => Km::MetaRight,
        Vk::Semicolon => Km::Semicolon,
        Vk::Slash => Km::Slash,
        Vk::Sleep => Km::Sleep,
        Vk::Sysrq => Km::PrintScreen,
        Vk::Tab => Km::Tab,
        Vk::VolumeDown => Km::AudioVolumeDown,
        Vk::VolumeUp => Km::AudioVolumeUp,
        Vk::Wake => Km::WakeUp,
        Vk::WebBack => Km::BrowserBack,
        Vk::WebFavorites => Km::BrowserFavorites,
        Vk::WebForward => Km::BrowserForward,
        Vk::WebHome => Km::BrowserHome,
        Vk::WebRefresh => Km::BrowserRefresh,
        Vk::WebSearch => Km::BrowserSearch,
        Vk::WebStop => Km::BrowserStop,
        Vk::Yen => Km::IntlYen,
        Vk::Copy => Km::Copy,
        Vk::Paste => Km::Paste,
        Vk::Cut => Km::Cut,

        _ => return KeyMapping::Code(None),
    };

    KeyMapping::Code(Some(key_mapping_code))
}

/// Converts one of this crate's made-up scancodes to a key mapping by its W3C
/// key code; an unassigned scancode gives `KeyMapping::Code(None)`.
pub fn arbitrary_scancode_to_key_mapping(sc: u16) -> (r: KeyMapping)
    ensures
        r == KeyMapping::Code(scancode_key_mapping_code(sc)),
        sc == 0 ==> r == KeyMapping::Code(None),
{
    match arbitrary_scancode_to_winit_vkey(sc) {
        Some(vkey) => winit_vkey_to_key_mapping(vkey),
        None => KeyMapping::Code(None),
    }
}

} // verus!
