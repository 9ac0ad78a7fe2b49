//! The modifier half of a key combination: four independent flags and their
//! canonical display string.

use vstd::prelude::*;
use crate::text::{join_with_sep, sep_join};

verus! {

/// The modifier keys a binding asserts. A modifier is either held or not;
/// there is no partial state.
#[derive(Clone, Copy, Debug, PartialEq, Eq, Structural)]
pub struct Modifiers {
    pub ctrl: bool,
    pub alt: bool,
    pub shift: bool,
    /// The platform "super" (logo) key.
    pub logo: bool,
}

/// Canonical display string of a modifier set: the held modifiers in the
/// fixed order Super, Ctrl, Alt, Shift, joined with `" + "`; empty when no
/// modifier is held.
pub open spec fn modifiers_display(m: Modifiers) -> Seq<char> {
    let s = Seq::<char>::empty();
    let s = if m.logo { sep_join(s, "Super"@) } else { s };
    let s = if m.ctrl { sep_join(s, "Ctrl"@) } else { s };
    let s = if m.alt { sep_join(s, "Alt"@) } else { s };
    if m.shift { sep_join(s, "Shift"@) } else { s }
}

impl Modifiers {
    /// A modifier set with nothing held.
    pub fn new() -> (r: Self)
        ensures
            r == (Modifiers { ctrl: false, alt: false, shift: false, logo: false }),
    {
        Self { ctrl: false, alt: false, shift: false, logo: false }
    }

    /// Renders the canonical display string.
    pub fn display(&self) -> (r: String)
        ensures
            r@ == modifiers_display(*self),
    {
        let mut s = String::new();
        if self.logo {
            s = join_with_sep(s, "Super");
        }
        if self.ctrl {
            s = join_with_sep(s, "Ctrl");
        }
        if self.alt {
            s = join_with_sep(s, "Alt");
        }
        if self.shift {
            s = join_with_sep(s, "Shift");
        }
        s
    }
}

} // verus!
