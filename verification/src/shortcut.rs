//! The platform hotkey token and its textual description.

use vstd::prelude::*;
use global_hotkey::hotkey::HotKey;

verus! {

#[verifier::external_type_specification]
#[verifier::external_body]
pub struct ExHotKey(HotKey);

/// Whether a shortcut description string parses as a platform hotkey token.
/// The outcome of `HotKey::from_str` depends on the string alone.
pub uninterp spec fn shortcut_parses(s: Seq<char>) -> bool;

/// Relies on global_hotkey's `HotKey::from_str`: parsing a textual shortcut
/// description such as `"Ctrl+Shift+F9"` into a platform hotkey token.
#[verifier::external_body]
pub(crate) fn parse_shortcut(s: &String) -> (r: Option<HotKey>)
    ensures
        (r is Some) == shortcut_parses(s@),
{
    s.parse::<HotKey>().ok()
}

/// Relies on `HotKey`'s derived `PartialEq`: token equality is equality of
/// the modifier set, the key code and the id field.
#[verifier::external_body]
pub(crate) fn same_shortcut(a: &HotKey, b: &HotKey) -> (r: bool)
    ensures
        r == (a == b),
{
    a == b
}

} // verus!
