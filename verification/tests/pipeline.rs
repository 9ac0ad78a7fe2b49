use keypeek::action::{Action, SystemAction};
use keypeek::binding::RawBinding;
use keypeek::keysym::KeySym;
use keypeek::modifiers::Modifiers;
use keypeek::pipeline::build_keybindings;

fn mods(logo: bool, ctrl: bool, alt: bool, shift: bool) -> Modifiers {
    Modifiers { ctrl, alt, shift, logo }
}

fn raw(m: Modifiers, key: Option<u32>, desc: Option<&str>, action: Action) -> RawBinding {
    RawBinding {
        modifiers: m,
        key: key.map(KeySym::new),
        description: desc.map(String::from),
        action,
    }
}

#[test]
fn empty_snapshot_yields_empty_list() {
    let out = build_keybindings(Vec::new());
    assert!(out.is_empty());
}

#[test]
fn disabled_bindings_never_surface() {
    let out = build_keybindings(vec![
        raw(mods(true, false, false, false), None, None, Action::Disable),
        raw(mods(false, true, false, false), None, Some("kept"), Action::Close),
        raw(mods(false, false, true, false), None, Some("gone"), Action::Disable),
    ]);
    assert_eq!(out.len(), 1);
    assert_eq!(out[0].description, "kept");
}

#[test]
fn explicit_description_overrides_the_label() {
    let out = build_keybindings(vec![raw(
        mods(false, true, false, false),
        None,
        Some("My shortcut"),
        Action::Close,
    )]);
    assert_eq!(out.len(), 1);
    assert_eq!(out[0].description, "My shortcut");
}

#[test]
fn output_is_sorted_by_description() {
    let out = build_keybindings(vec![
        raw(mods(true, false, false, false), None, None, Action::ZoomIn),
        raw(mods(false, true, false, false), None, None, Action::Close),
        raw(mods(false, false, true, false), None, None, Action::Maximize),
    ]);
    let descs: Vec<&str> = out.iter().map(|b| b.description.as_str()).collect();
    assert_eq!(descs, vec!["Close window", "Maximize window", "Zoom in"]);
}

#[test]
fn groups_merge_into_one_record_with_two_renderings() {
    let out = build_keybindings(vec![
        raw(mods(true, false, false, false), None, Some("Do the thing"), Action::Close),
        raw(mods(false, true, false, false), None, Some("Do the thing"), Action::Close),
        raw(mods(false, false, true, false), None, Some("Do the thing"), Action::Close),
    ]);
    assert_eq!(out.len(), 1);
    assert_eq!(out[0].description, "Do the thing");
    assert_eq!(out[0].keybind_display.as_deref(), Some("Super / Ctrl"));
    assert_eq!(out[0].render(), "Super / Ctrl");
}

#[test]
fn single_member_groups_pass_through_unchanged() {
    let out = build_keybindings(vec![raw(
        mods(true, false, false, true),
        Some(xkeysym::key::Return),
        Some("Solo"),
        Action::Close,
    )]);
    assert_eq!(out.len(), 1);
    assert!(out[0].keybind_display.is_none());
    assert_eq!(out[0].render(), "Super + Shift + Return");
}

#[test]
fn media_key_bindings_are_filtered_out() {
    let out = build_keybindings(vec![
        raw(
            mods(false, false, false, false),
            Some(xkeysym::key::XF86_MonBrightnessUp),
            Some("Brightness"),
            Action::System(SystemAction::BrightnessUp),
        ),
        raw(mods(true, false, false, false), None, Some("Keyless"), Action::Close),
    ]);
    assert_eq!(out.len(), 1);
    assert_eq!(out[0].description, "Keyless");
}

#[test]
fn override_groups_with_table_label() {
    let out = build_keybindings(vec![
        raw(mods(true, false, false, false), None, None, Action::Fullscreen),
        raw(mods(false, true, false, false), None, Some("Fullscreen window"), Action::Close),
    ]);
    assert_eq!(out.len(), 1);
    assert_eq!(out[0].description, "Fullscreen window");
    assert_eq!(out[0].render(), "Super / Ctrl");
}

#[test]
fn pipeline_is_deterministic() {
    let snapshot = || {
        vec![
            raw(mods(true, true, false, false), None, None, Action::Fullscreen),
            raw(mods(false, false, true, false), Some(xkeysym::key::Tab), None, Action::Fullscreen),
            raw(
                mods(true, false, false, false),
                None,
                None,
                Action::System(SystemAction::Launcher),
            ),
            raw(mods(false, true, false, false), None, None, Action::Disable),
        ]
    };
    let a = build_keybindings(snapshot());
    let b = build_keybindings(snapshot());
    let ra: Vec<(String, String)> =
        a.iter().map(|k| (k.description.clone(), k.render())).collect();
    let rb: Vec<(String, String)> =
        b.iter().map(|k| (k.description.clone(), k.render())).collect();
    assert_eq!(ra, rb);
}

#[test]
fn worked_example() {
    let out = build_keybindings(vec![
        raw(mods(true, true, false, false), None, None, Action::Fullscreen),
        raw(mods(false, false, true, false), Some(xkeysym::key::Tab), None, Action::Fullscreen),
        raw(mods(true, false, false, false), None, None, Action::System(SystemAction::Launcher)),
    ]);
    assert_eq!(out.len(), 2);
    assert_eq!(out[0].description, "Fullscreen window");
    assert_eq!(out[0].render(), "Super + Ctrl / Alt + Tab");
    assert_eq!(out[1].description, "Open the Launcher");
    assert_eq!(out[1].render(), "Super");
}
