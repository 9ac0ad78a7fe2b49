use keypeek::action::{Action, SystemAction};
use keypeek::binding::KeyBinding;
use keypeek::keysym::KeySym;
use keypeek::modifiers::Modifiers;

fn mods(logo: bool, ctrl: bool, alt: bool, shift: bool) -> Modifiers {
    Modifiers { ctrl, alt, shift, logo }
}

#[test]
fn modifier_display_is_empty_for_no_flags() {
    assert_eq!(Modifiers::new().display(), "");
}

#[test]
fn modifier_display_uses_canonical_order() {
    assert_eq!(mods(true, true, true, true).display(), "Super + Ctrl + Alt + Shift");
    assert_eq!(mods(false, true, false, true).display(), "Ctrl + Shift");
    assert_eq!(mods(true, false, false, false).display(), "Super");
}

#[test]
fn action_labels_come_from_the_static_table() {
    assert_eq!(keypeek::action::localize_action(&Action::Close), "Close window");
    assert_eq!(keypeek::action::localize_action(&Action::Fullscreen), "Fullscreen window");
    assert_eq!(
        keypeek::action::localize_action(&Action::System(SystemAction::Launcher)),
        "Open the Launcher"
    );
    assert_eq!(keypeek::action::localize_action(&Action::ZoomIn), "Zoom in");
}

#[test]
fn workspace_labels_interpolate_the_index() {
    assert_eq!(keypeek::action::localize_action(&Action::Workspace(3)), "Workspace 3");
    assert_eq!(keypeek::action::localize_action(&Action::Workspace(0)), "Workspace 0");
    assert_eq!(
        keypeek::action::localize_action(&Action::MoveToWorkspace(12)),
        "Move window to workspace 12"
    );
    assert_eq!(
        keypeek::action::localize_action(&Action::SendToWorkspace(255)),
        "Move window to workspace 255"
    );
}

#[test]
fn spawn_label_is_the_command_verbatim() {
    assert_eq!(
        keypeek::action::localize_action(&Action::Spawn(String::from("firefox --new-window"))),
        "firefox --new-window"
    );
}

#[test]
fn key_names_are_resolved_and_prefix_stripped() {
    let binding = KeyBinding {
        modifiers: Modifiers::new(),
        key: Some(KeySym::new(xkeysym::key::Tab)),
        description: String::from("x"),
        keybind_display: None,
    };
    assert_eq!(binding.render(), "Tab");
}

#[test]
fn render_joins_modifiers_and_key() {
    let binding = KeyBinding {
        modifiers: mods(true, false, true, false),
        key: Some(KeySym::new(xkeysym::key::Return)),
        description: String::from("x"),
        keybind_display: None,
    };
    assert_eq!(binding.render(), "Super + Alt + Return");
}

#[test]
fn resolver_returns_canonical_names() {
    assert_eq!(
        KeySym::new(xkeysym::key::Tab).resolve_name().as_deref(),
        Some("XK_Tab")
    );
    assert_eq!(KeySym::new(0x0012_3456).resolve_name(), None);
}

#[test]
fn media_keys_are_recognised() {
    assert!(keypeek::keysym::media_key(&KeySym::new(xkeysym::key::XF86_MonBrightnessUp)));
    assert!(!keypeek::keysym::media_key(&KeySym::new(xkeysym::key::Tab)));
}
