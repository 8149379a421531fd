use jumpbox_typer::keybind::{
    keybind_matches, normalize_key_name, parse_keybind, shortcut_modifiers, ModifierSet,
    ALT_BIT, CONTROL_BIT, SHIFT_BIT, SHORTCUT_BITS, SUPER_BIT,
};

const LOCK_BIT: u32 = 0x2;

fn mods(control: bool, alt: bool, shift: bool, super_key: bool) -> ModifierSet {
    ModifierSet { control, alt, shift, super_key }
}

#[test]
fn normalize_key_names() {
    assert_eq!(normalize_key_name("esc"), "ESCAPE");
    assert_eq!(normalize_key_name(" Escape "), "ESCAPE");
    assert_eq!(normalize_key_name("Return"), "ENTER");
    assert_eq!(normalize_key_name("enter"), "ENTER");
    assert_eq!(normalize_key_name("\tSpace\n"), "SPACE");
    assert_eq!(normalize_key_name("f8"), "F8");
    assert_eq!(normalize_key_name("s"), "S");
    assert_eq!(normalize_key_name("ø"), "ø");
    assert_eq!(normalize_key_name(""), "");
}

#[test]
fn normalize_is_idempotent_on_examples() {
    for k in ["esc", "Return", " space", "F8", "a", "KP_Enter", "ø", "  ", "Page_Up"] {
        let once = normalize_key_name(k);
        assert_eq!(normalize_key_name(&once), once);
    }
}

#[test]
fn parse_simple_and_combined_keybinds() {
    let k = parse_keybind("F8").unwrap();
    assert_eq!(k.key, "F8");
    assert_eq!(k.modifiers, mods(false, false, false, false));

    let k = parse_keybind("Ctrl+Alt+S").unwrap();
    assert_eq!(k.key, "S");
    assert_eq!(k.modifiers, mods(true, true, false, false));

    let k = parse_keybind(" shift + f9 ").unwrap();
    assert_eq!(k.key, "F9");
    assert_eq!(k.modifiers, mods(false, false, true, false));

    let k = parse_keybind("Control+Option+Cmd+Windows+x").unwrap();
    assert_eq!(k.key, "X");
    assert_eq!(k.modifiers, mods(true, true, false, true));

    let k = parse_keybind("ctrl++esc").unwrap();
    assert_eq!(k.key, "ESCAPE");
    assert_eq!(k.modifiers, mods(true, false, false, false));
}

#[test]
fn parse_errors() {
    let missing = "Set a start/stop keybind, for example F8 or Ctrl+Alt+S.".to_string();
    assert_eq!(parse_keybind("").unwrap_err(), missing);
    assert_eq!(parse_keybind(" + + ").unwrap_err(), missing);
    assert_eq!(
        parse_keybind("Ctrl+Hyper+S").unwrap_err(),
        "Unknown keybind modifier: hyper."
    );
    assert_eq!(
        parse_keybind("Meta+Foo+S").unwrap_err(),
        "Unknown keybind modifier: meta."
    );
}

#[test]
fn shortcut_modifiers_from_state_bits() {
    assert_eq!(shortcut_modifiers(0), mods(false, false, false, false));
    assert_eq!(shortcut_modifiers(CONTROL_BIT | ALT_BIT), mods(true, true, false, false));
    assert_eq!(shortcut_modifiers(SHIFT_BIT | SUPER_BIT | LOCK_BIT), mods(false, false, true, true));
    assert_eq!(SHORTCUT_BITS, CONTROL_BIT | ALT_BIT | SHIFT_BIT | SUPER_BIT);
}

#[test]
fn keybind_matches_presses() {
    assert_eq!(keybind_matches("Ctrl+Alt+S", Some("s"), CONTROL_BIT | ALT_BIT), Ok(true));
    assert_eq!(keybind_matches("Ctrl+Alt+S", Some("s"), CONTROL_BIT), Ok(false));
    assert_eq!(keybind_matches("F8", Some("F8"), 0), Ok(true));
    assert_eq!(keybind_matches("F8", Some("F9"), 0), Ok(false));
    assert_eq!(keybind_matches("F8", None, 0), Ok(false));
    assert_eq!(keybind_matches("Esc", Some("Escape"), 0), Ok(true));
    assert_eq!(
        keybind_matches("Bogus+F8", Some("F8"), 0),
        Err("Unknown keybind modifier: bogus.".to_string())
    );
}

/// Caps Lock and other non-shortcut bits do not change whether a keybind matches.
#[test]
fn keybind_match_ignores_caps_lock() {
    for state in [0, CONTROL_BIT, CONTROL_BIT | SHIFT_BIT, SUPER_BIT] {
        assert_eq!(
            keybind_matches("Ctrl+Shift+F8", Some("F8"), state | LOCK_BIT | 0x100),
            keybind_matches("Ctrl+Shift+F8", Some("F8"), state)
        );
    }
}

/// Keybind texts and key names compare case-insensitively.
#[test]
fn keybind_case_insensitive() {
    for text in ["CTRL+ALT+s", "ctrl+alt+S", "Ctrl+Alt+S"] {
        assert_eq!(keybind_matches(text, Some("S"), CONTROL_BIT | ALT_BIT), Ok(true));
        assert_eq!(keybind_matches(text, Some("s"), CONTROL_BIT | ALT_BIT), Ok(true));
    }
    assert_eq!(parse_keybind("FOO+X").unwrap_err(), parse_keybind("foo+x").unwrap_err());
}

/// Order, repeats, case and spaces of modifiers do not change the keybind.
#[test]
fn keybind_ignores_modifier_order_repeats_and_spaces() {
    let a = parse_keybind("Ctrl+Alt+S").unwrap();
    for text in ["Alt+Ctrl+S", "ctrl + alt + s", " ALT+ctrl+alt +s ", "Control+Option+S"] {
        let b = parse_keybind(text).unwrap();
        assert_eq!(b.key, a.key);
        assert_eq!(b.modifiers, a.modifiers);
    }
    let c = parse_keybind("Ctrl+Ctrl+S").unwrap();
    let d = parse_keybind("Ctrl+S").unwrap();
    assert_eq!((c.key, c.modifiers), (d.key, d.modifiers));
}

/// A normalised key name ignores case and padding and has no lower-case letter or outer space.
#[test]
fn normalized_key_shape() {
    for k in ["f8", "Page_Up", " return ", "kp_enter", "ø"] {
        let n = normalize_key_name(k);
        assert_eq!(normalize_key_name(&k.to_ascii_uppercase()), n);
        assert_eq!(normalize_key_name(&format!(" {} \t", k.to_ascii_lowercase())), n);
        assert!(!n.chars().any(|c| c.is_ascii_lowercase()));
        assert_eq!(n.trim(), n);
    }
}
