//! Key symbols and their resolution to canonical names.
//!
//! A key symbol is an opaque platform identifier; equality is by value. The
//! symbol name resolver maps it to a canonical name such as `XK_Tab` or
//! `XF86XK_MonBrightnessUp`. Names in the reserved `XF86` media/function-key
//! namespace mark noise entries; the `XK_` prefix is stripped for display.

use vstd::prelude::*;
use crate::text::{has_prefix, starts_with, strip_prefix, strip_prefix_str};

verus! {

/// A platform key-symbol identifier.
#[derive(Clone, Copy, Debug, PartialEq, Eq, Structural)]
pub struct KeySym {
    pub raw: u32,
}

/// The canonical name of a key-symbol value, when the platform table has
/// one. The table is fixed, so the name depends on the value alone.
pub uninterp spec fn keysym_name(raw: u32) -> Option<Seq<char>>;

/// Relies on xkeysym's `Keysym::name`: a fixed, deterministic table from
/// key-symbol values to canonical names.
#[verifier::external_body]
fn resolve_name_raw(raw: u32) -> (r: Option<String>)
    ensures
        r matches Some(s) ==> keysym_name(raw) matches Some(n) && s@ == n,
        r is None ==> keysym_name(raw) is None,
{
    xkeysym::Keysym::new(raw).name().map(|n| n.to_string())
}

impl KeySym {
    /// Wraps a raw key-symbol value.
    pub fn new(raw: u32) -> (r: Self)
        ensures
            r == (KeySym { raw }),
    {
        KeySym { raw }
    }

    /// Resolves the symbol to its canonical name.
    pub fn resolve_name(&self) -> (r: Option<String>)
        ensures
            r matches Some(s) ==> keysym_name(self.raw) matches Some(n) && s@ == n,
            r is None ==> keysym_name(self.raw) is None,
    {
        resolve_name_raw(self.raw)
    }
}

/// A resolved name that falls in the reserved media/function-key namespace.
pub open spec fn is_media_name(n: Seq<char>) -> bool {
    has_prefix(n, "XF86"@)
}

/// The symbol resolves to a name in the reserved media/function-key
/// namespace. A symbol without a name is not noise.
pub open spec fn is_media_key(raw: u32) -> bool {
    match keysym_name(raw) {
        Some(n) => is_media_name(n),
        None => false,
    }
}

/// Tests whether the symbol is a reserved media/function key.
pub fn media_key(sym: &KeySym) -> (r: bool)
    ensures
        r == is_media_key(sym.raw),
{
    match sym.resolve_name() {
        Some(n) => starts_with(n.as_str(), "XF86"),
        None => false,
    }
}

/// The display name of a symbol: its canonical name with the platform
/// naming prefix stripped for readability; nothing for a symbol the table
/// does not know.
pub open spec fn display_key_name(raw: u32) -> Option<Seq<char>> {
    match keysym_name(raw) {
        Some(n) => Some(strip_prefix(n, "XK_"@)),
        None => None,
    }
}

/// Resolves the display name of a symbol.
pub fn display_name(sym: &KeySym) -> (r: Option<String>)
    ensures
        r matches Some(s) ==> display_key_name(sym.raw) matches Some(n) && s@ == n,
        r is None ==> display_key_name(sym.raw) is None,
{
    match sym.resolve_name() {
        Some(n) => {
            let stripped = strip_prefix_str(n.as_str(), "XK_");
            Some(stripped.to_owned())
        },
        None => None,
    }
}

} // verus!
