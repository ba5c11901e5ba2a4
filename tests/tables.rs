use key_names::{
    arbitrary_scancode_to_key_mapping, arbitrary_scancode_to_winit_vkey, ascii_to_keycode,
    key_map_to_arbitrary_scancode, scancode_name, winit_vkey_to_arbitrary_scancode,
    winit_vkey_to_key_mapping, ALT_STR, LOGO_STR, MODIFIERS_ORDER, SC_INVALID, SC_MAX,
};
use keycode::{KeyMapping, KeyMappingCode};
use std::collections::HashSet;
use winit::event::VirtualKeyCode;

fn all_keys() -> Vec<VirtualKeyCode> {
    (1..=SC_MAX)
        .map(|sc| arbitrary_scancode_to_winit_vkey(sc).expect("assigned scancode"))
        .collect()
}

#[test]
fn every_scancode_round_trips() {
    for sc in 1..=163u16 {
        let key = arbitrary_scancode_to_winit_vkey(sc).unwrap();
        assert_eq!(winit_vkey_to_arbitrary_scancode(key), sc);
    }
}

#[test]
fn every_key_round_trips() {
    for key in all_keys() {
        assert_eq!(
            arbitrary_scancode_to_winit_vkey(winit_vkey_to_arbitrary_scancode(key)),
            Some(key)
        );
    }
}

#[test]
fn unassigned_scancodes_name_no_key() {
    assert_eq!(arbitrary_scancode_to_winit_vkey(0), None);
    assert_eq!(arbitrary_scancode_to_winit_vkey(164), None);
    for sc in 164..=u16::MAX {
        assert_eq!(arbitrary_scancode_to_winit_vkey(sc), None);
    }
}

#[test]
fn scancodes_are_unique() {
    let keys = all_keys();
    let distinct_keys: HashSet<VirtualKeyCode> = keys.iter().copied().collect();
    assert_eq!(distinct_keys.len(), 163);
    let codes: HashSet<u16> = keys.iter().map(|&k| winit_vkey_to_arbitrary_scancode(k)).collect();
    assert_eq!(codes.len(), 163);
}

#[test]
fn fixed_scancodes() {
    assert_eq!(winit_vkey_to_arbitrary_scancode(VirtualKeyCode::Key1), 1);
    assert_eq!(winit_vkey_to_arbitrary_scancode(VirtualKeyCode::Key0), 10);
    assert_eq!(winit_vkey_to_arbitrary_scancode(VirtualKeyCode::A), 11);
    assert_eq!(winit_vkey_to_arbitrary_scancode(VirtualKeyCode::Cut), 163);
    assert_eq!(arbitrary_scancode_to_winit_vkey(160), Some(VirtualKeyCode::Yen));
}

#[test]
fn scancode_names() {
    assert_eq!(scancode_name(11), "A");
    assert_eq!(scancode_name(10), "Key0");
    assert_eq!(scancode_name(163), "Cut");
    assert_eq!(scancode_name(0), "SC0");
    assert_eq!(scancode_name(9999), "SC9999");
    assert_eq!(scancode_name(164), "SC164");
    assert_eq!(scancode_name(u16::MAX), "SC65535");
}

#[test]
fn scancode_names_of_assigned_scancodes_are_key_names() {
    for sc in 1..=163u16 {
        let key = arbitrary_scancode_to_winit_vkey(sc).unwrap();
        assert_eq!(scancode_name(sc), format!("{:?}", key));
    }
}

#[test]
fn scancode_key_mapping_composes() {
    assert_eq!(arbitrary_scancode_to_key_mapping(0), KeyMapping::Code(None));
    assert_eq!(arbitrary_scancode_to_key_mapping(200), KeyMapping::Code(None));
    for sc in 1..=163u16 {
        let key = arbitrary_scancode_to_winit_vkey(sc).unwrap();
        assert_eq!(arbitrary_scancode_to_key_mapping(sc), winit_vkey_to_key_mapping(key));
    }
}

#[test]
fn key_mappings() {
    assert_eq!(
        winit_vkey_to_key_mapping(VirtualKeyCode::A),
        KeyMapping::Code(Some(KeyMappingCode::KeyA))
    );
    assert_eq!(
        winit_vkey_to_key_mapping(VirtualKeyCode::Key1),
        KeyMapping::Code(Some(KeyMappingCode::Digit1))
    );
    assert_eq!(
        winit_vkey_to_key_mapping(VirtualKeyCode::NumpadEquals),
        KeyMapping::Code(Some(KeyMappingCode::NumpadEqual))
    );
    assert_eq!(winit_vkey_to_key_mapping(VirtualKeyCode::Stop), KeyMapping::Code(None));
    assert_eq!(winit_vkey_to_key_mapping(VirtualKeyCode::Underline), KeyMapping::Code(None));
}

#[test]
fn both_navigation_keys_map_to_browser_forward() {
    let forward = KeyMapping::Code(Some(KeyMappingCode::BrowserForward));
    assert_eq!(winit_vkey_to_key_mapping(VirtualKeyCode::NavigateForward), forward);
    assert_eq!(winit_vkey_to_key_mapping(VirtualKeyCode::NavigateBackward), forward);
}

#[test]
fn ascii_duplicates_and_gaps() {
    assert_eq!(ascii_to_keycode(3), ascii_to_keycode(19));
    assert_eq!(ascii_to_keycode(3), Some(VirtualKeyCode::Pause));
    assert_eq!(ascii_to_keycode(0), None);
    assert_eq!(ascii_to_keycode(21), None);
    assert_eq!(ascii_to_keycode(255), None);
    for code in [63u8, 169, 173, 189] {
        assert_eq!(ascii_to_keycode(code), Some(VirtualKeyCode::Minus));
    }
}

#[test]
fn ascii_letters_and_digits() {
    assert_eq!(ascii_to_keycode(48), Some(VirtualKeyCode::Key0));
    assert_eq!(ascii_to_keycode(90), Some(VirtualKeyCode::Z));
    assert_eq!(ascii_to_keycode(13), Some(VirtualKeyCode::Return));
}

#[test]
fn ascii_a_end_to_end() {
    let key = ascii_to_keycode(65).unwrap();
    assert_eq!(key, VirtualKeyCode::A);
    assert_eq!(winit_vkey_to_arbitrary_scancode(key), 11);
    assert_eq!(
        winit_vkey_to_key_mapping(key),
        KeyMapping::Code(Some(KeyMappingCode::KeyA))
    );
}

#[test]
fn resolved_key_map_scancodes() {
    assert_eq!(key_map_to_arbitrary_scancode(None), SC_INVALID);
    assert_eq!(key_map_to_arbitrary_scancode(Some(VirtualKeyCode::A)), 11);
    assert_eq!(key_map_to_arbitrary_scancode(Some(VirtualKeyCode::Cut)), 163);
}

#[test]
fn display_constants() {
    assert_eq!(ALT_STR, "Alt");
    assert_eq!(LOGO_STR, "Logo");
    assert_eq!(MODIFIERS_ORDER, "csam");
}
