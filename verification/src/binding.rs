//! Raw and canonical shortcut records, the binding normalizer, and the
//! single-binding display formatter.

use vstd::prelude::*;
use crate::action::{action_label, localize_action, Action};
use crate::keysym::{display_key_name, display_name, KeySym};
use crate::modifiers::{modifiers_display, Modifiers};
use crate::text::{join_with_sep, sep_join};

verus! {

/// A raw binding as the settings provider hands it out: modifier bits, an
/// optional key symbol, an optional explicit description override, and the
/// action it triggers.
#[derive(Clone, Debug)]
pub struct RawBinding {
    pub modifiers: Modifiers,
    pub key: Option<KeySym>,
    pub description: Option<String>,
    pub action: Action,
}

/// The mathematical content of a raw binding.
#[verifier::ext_equal]
pub struct RawBindingView {
    pub modifiers: Modifiers,
    pub key: Option<KeySym>,
    pub description: Option<Seq<char>>,
    pub action: Action,
}

impl View for RawBinding {
    type V = RawBindingView;

    open spec fn view(&self) -> RawBindingView {
        RawBindingView {
            modifiers: self.modifiers,
            key: self.key,
            description: match self.description {
                Some(d) => Some(d@),
                None => None,
            },
            action: self.action,
        }
    }
}

/// A canonical display-ready record. `description` is the grouping and sort
/// key; `keybind_display` is set only when several raw bindings shared a
/// description, and then overrides the default rendering.
#[derive(Clone, Debug)]
pub struct KeyBinding {
    pub modifiers: Modifiers,
    pub key: Option<KeySym>,
    pub description: String,
    pub keybind_display: Option<String>,
}

/// The mathematical content of a canonical record.
#[verifier::ext_equal]
pub struct KeyBindingView {
    pub modifiers: Modifiers,
    pub key: Option<KeySym>,
    pub description: Seq<char>,
    pub keybind_display: Option<Seq<char>>,
}

impl View for KeyBinding {
    type V = KeyBindingView;

    open spec fn view(&self) -> KeyBindingView {
        KeyBindingView {
            modifiers: self.modifiers,
            key: self.key,
            description: self.description@,
            keybind_display: match self.keybind_display {
                Some(d) => Some(d@),
                None => None,
            },
        }
    }
}

/// The default rendering of one key combination: the modifier display
/// string, then the key's display name if the symbol is present and known,
/// joined with `" + "`. Empty when there is neither a modifier nor a key.
pub open spec fn combo_display(m: Modifiers, key: Option<KeySym>) -> Seq<char> {
    match key {
        None => modifiers_display(m),
        Some(k) => match display_key_name(k.raw) {
            Some(n) => sep_join(modifiers_display(m), n),
            None => modifiers_display(m),
        },
    }
}

/// The rendered string of a record: the merged multi-binding display when it
/// is set, the default single-binding rendering otherwise.
pub open spec fn render_view(b: KeyBindingView) -> Seq<char> {
    match b.keybind_display {
        Some(d) => d,
        None => combo_display(b.modifiers, b.key),
    }
}

/// Renders one key combination by the default single-binding rule.
pub fn render_combo(m: &Modifiers, key: &Option<KeySym>) -> (r: String)
    ensures
        r@ == combo_display(*m, *key),
{
    let base = m.display();
    match key {
        None => base,
        Some(k) => match display_name(k) {
            Some(n) => join_with_sep(base, n.as_str()),
            None => base,
        },
    }
}

impl KeyBinding {
    /// Renders the record's display string.
    pub fn render(&self) -> (r: String)
        ensures
            r@ == render_view(self@),
    {
        match &self.keybind_display {
            Some(d) => d.clone(),
            None => render_combo(&self.modifiers, &self.key),
        }
    }
}

/// What the normalizer produces: nothing for the explicit "disable" marker,
/// otherwise a canonical record whose description is the binding's own if
/// present and the action's label otherwise, with no merged display yet.
pub open spec fn normalize_view(r: RawBindingView) -> Option<KeyBindingView> {
    if r.action is Disable {
        None
    } else {
        Some(
            KeyBindingView {
                modifiers: r.modifiers,
                key: r.key,
                description: match r.description {
                    Some(d) => d,
                    None => action_label(r.action),
                },
                keybind_display: None,
            },
        )
    }
}

/// Normalizes one raw binding; drops a binding the user explicitly
/// disabled.
pub fn normalize(raw: RawBinding) -> (r: Option<KeyBinding>)
    ensures
        match r {
            Some(b) => normalize_view(raw@) matches Some(v) && b@ == v,
            None => normalize_view(raw@) is None,
        },
{
    if matches!(raw.action, Action::Disable) {
        return None;
    }
    let description = match raw.description {
        Some(d) => d,
        None => localize_action(&raw.action),
    };
    Some(
        KeyBinding {
            modifiers: raw.modifiers,
            key: raw.key,
            description,
            keybind_display: None,
        },
    )
}

} // verus!
