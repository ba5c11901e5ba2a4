//! Human-readable labels for scancodes, and the display strings that a user
//! interface shows for modifier keys.

use vstd::prelude::*;
use winit::event::VirtualKeyCode as Vk;
use crate::scancode::{arbitrary_scancode_to_winit_vkey, key_of_scancode};

verus! {

/// Label of the Alt modifier.
pub const ALT_STR: &'static str = "Alt";

/// Label of the logo (Windows / Command / Super) modifier.
pub const LOGO_STR: &'static str = "Logo";

/// Order in which modifiers are listed: Ctrl, Shift, Alt, Meta.
pub const MODIFIERS_ORDER: &'static str = "csam";

/// The decimal digit character for `d < 10`.
pub open spec fn digit_char(d: nat) -> char {
    if d == 0 { '0' }
    else if d == 1 { '1' }
    else if d == 2 { '2' }
    else if d == 3 { '3' }
    else if d == 4 { '4' }
    else if d == 5 { '5' }
    else if d == 6 { '6' }
    else if d == 7 { '7' }
    else if d == 8 { '8' }
    else { '9' }
}

/// The decimal notation of `n`, without leading zeros.
pub open spec fn decimal(n: nat) -> Seq<char>
    decreases n,
{
    if n < 10 {
        seq![digit_char(n)]
    } else {
        decimal(n / 10).push(digit_char(n % 10))
    }
}

/// What `Debug` writes for a virtual key code.
pub uninterp spec fn vkey_debug_name(k: Vk) -> Seq<char>;

/// The label of a scancode: the key's name where the scancode names a key,
/// else `SC` followed by the scancode in decimal.
pub open spec fn scancode_label(sc: u16) -> Seq<char> {
    match key_of_scancode(sc) {
        Some(k) => vkey_debug_name(k),
        None => seq!['S', 'C'] + decimal(sc as nat),
    }
}

/// Relies on the `Debug` impl that winit derives for `VirtualKeyCode`, which
/// writes the variant's name and depends on nothing but the variant.
#[verifier::external_body]
fn vkey_debug_string(k: Vk) -> (r: String)
    ensures
        r@ == vkey_debug_name(k),
{
    format!("{:?}", k)
}

fn digit_str(d: u16) -> (r: &'static str)
    requires
        d < 10,
    ensures
        r@ == seq![digit_char(d as nat)],
{
    proof {
        reveal_strlit("0");
        reveal_strlit("1");
        reveal_strlit("2");
        reveal_strlit("3");
        reveal_strlit("4");
        reveal_strlit("5");
        reveal_strlit("6");
        reveal_strlit("7");
        reveal_strlit("8");
        reveal_strlit("9");
    }
    match d {
        0 => "0",
        1 => "1",
        2 => "2",
        3 => "3",
        4 => "4",
        5 => "5",
        6 => "6",
        7 => "7",
        8 => "8",
        _ => "9",
    }
}

/// Appends the decimal notation of `n` to `s`.
pub fn push_decimal(s: &mut String, n: u16)
    ensures
        final(s)@ == old(s)@ + decimal(n as nat),
    decreases n,
{
    if n >= 10 {
        push_decimal(s, n / 10);
    }
    let d = digit_str(n % 10);
    s.append(d);
    assert(s@ =~= old(s)@ + decimal(n as nat));
}

/// A label for a scancode, for diagnostics: the name of the key that it
/// stands for, or `SC<n>` where it stands for none.
pub fn scancode_name(sc: u16) -> (r: String)
    ensures
        r@ == scancode_label(sc),
{
    match arbitrary_scancode_to_winit_vkey(sc) {
        Some(key_code) => vkey_debug_string(key_code),
        None => {
            let mut s = String::from_str("SC");
            proof {
                reveal_strlit("SC");
            }
            push_decimal(&mut s, sc);
            assert(s@ =~= seq!['S', 'C'] + decimal(sc as nat));
            s
        },
    }
}

} // verus!
