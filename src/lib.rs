//! Translation tables between winit's virtual key codes, a compact scancode
//! space owned by this crate, W3C key codes and legacy browser key codes.
//!
//! Every function is a pure table lookup. The two directions of the scancode
//! table are proved to be inverse to each other over `1..=163`.

mod platform;
pub mod scancode;
pub mod label;
pub mod key_mapping;
pub mod ascii;

pub use scancode::{
    arbitrary_scancode_to_winit_vkey, key_map_to_arbitrary_scancode,
    winit_vkey_to_arbitrary_scancode, SC_INVALID, SC_MAX,
};
pub use label::{scancode_name, ALT_STR, LOGO_STR, MODIFIERS_ORDER};
pub use key_mapping::{arbitrary_scancode_to_key_mapping, winit_vkey_to_key_mapping};
pub use ascii::ascii_to_keycode;
