//! Declarations of the outside enums that the translation tables read and
//! produce. Verus takes their variants from the defining crates.

use vstd::prelude::*;

verus! {

#[verifier::external_type_specification]
pub struct ExVirtualKeyCode(winit::event::VirtualKeyCode);

#[verifier::external_type_specification]
pub struct ExKeyMappingCode(keycode::KeyMappingCode);

#[verifier::external_type_specification]
pub struct ExKeyMappingId(keycode::KeyMappingId);

#[verifier::external_type_specification]
pub struct ExKeyMapping(keycode::KeyMapping);

} // verus!
