use dictation_core::shortcut::{parse_shortcut, KeyCode, Modifiers, Shortcut, ShortcutError};

const NONE: Modifiers = Modifiers { control: false, alt: false, shift: false, meta: false };

fn reference(shortcut_str: &str) -> Result<Shortcut, ShortcutError> {
    let mut modifiers = NONE;
    let mut key: Option<KeyCode> = None;
    for part in shortcut_str.split('+') {
        let name = part.trim();
        match name {
            "Ctrl" | "Control" => modifiers.control = true,
            "Alt" | "Option" => modifiers.alt = true,
            "Shift" => modifiers.shift = true,
            "Cmd" | "Command" | "Meta" => modifiers.meta = true,
            "Space" => key = Some(KeyCode::Space),
            "Enter" => key = Some(KeyCode::Enter),
            "Tab" => key = Some(KeyCode::Tab),
            "Escape" => key = Some(KeyCode::Escape),
            "F1" => key = Some(KeyCode::F1),
            "F2" => key = Some(KeyCode::F2),
            "F3" => key = Some(KeyCode::F3),
            "F4" => key = Some(KeyCode::F4),
            "F5" => key = Some(KeyCode::F5),
            "F6" => key = Some(KeyCode::F6),
            "F7" => key = Some(KeyCode::F7),
            "F8" => key = Some(KeyCode::F8),
            "F9" => key = Some(KeyCode::F9),
            "F10" => key = Some(KeyCode::F10),
            "F11" => key = Some(KeyCode::F11),
            "F12" => key = Some(KeyCode::F12),
            "A" => key = Some(KeyCode::KeyA),
            "B" => key = Some(KeyCode::KeyB),
            "C" => key = Some(KeyCode::KeyC),
            "V" => key = Some(KeyCode::KeyV),
            _ => return Err(ShortcutError::UnknownKey(name.to_string())),
        }
    }
    match key {
        Some(key) => Ok(Shortcut { modifiers, key }),
        None => Err(ShortcutError::NoKeyCode),
    }
}

#[test]
fn the_default_hotkey_is_option_space() {
    assert_eq!(
        parse_shortcut("Option+Space"),
        Ok(Shortcut { modifiers: Modifiers { alt: true, ..NONE }, key: KeyCode::Space })
    );
}

#[test]
fn modifiers_add_up_in_any_order() {
    let all = Modifiers { control: true, alt: true, shift: true, meta: true };
    assert_eq!(parse_shortcut("Ctrl+Alt+Shift+Cmd+F9"), Ok(Shortcut { modifiers: all, key: KeyCode::F9 }));
    assert_eq!(parse_shortcut("Meta+Shift+Option+Control+F9"), Ok(Shortcut { modifiers: all, key: KeyCode::F9 }));
    assert_eq!(parse_shortcut("F9+Command+Shift+Alt+Ctrl"), Ok(Shortcut { modifiers: all, key: KeyCode::F9 }));
    assert_eq!(
        parse_shortcut("Shift+Shift+A"),
        Ok(Shortcut { modifiers: Modifiers { shift: true, ..NONE }, key: KeyCode::KeyA })
    );
}

#[test]
fn a_key_alone_is_a_hotkey() {
    let keys = [
        ("Space", KeyCode::Space),
        ("Enter", KeyCode::Enter),
        ("Tab", KeyCode::Tab),
        ("Escape", KeyCode::Escape),
        ("F1", KeyCode::F1),
        ("F2", KeyCode::F2),
        ("F3", KeyCode::F3),
        ("F4", KeyCode::F4),
        ("F5", KeyCode::F5),
        ("F6", KeyCode::F6),
        ("F7", KeyCode::F7),
        ("F8", KeyCode::F8),
        ("F9", KeyCode::F9),
        ("F10", KeyCode::F10),
        ("F11", KeyCode::F11),
        ("F12", KeyCode::F12),
        ("A", KeyCode::KeyA),
        ("B", KeyCode::KeyB),
        ("C", KeyCode::KeyC),
        ("V", KeyCode::KeyV),
    ];
    for (name, key) in keys {
        assert_eq!(parse_shortcut(name), Ok(Shortcut { modifiers: NONE, key }), "name = {}", name);
    }
}

#[test]
fn names_are_trimmed() {
    assert_eq!(
        parse_shortcut("  Ctrl +\tShift\u{a0}+ V \n"),
        Ok(Shortcut { modifiers: Modifiers { control: true, shift: true, ..NONE }, key: KeyCode::KeyV })
    );
}

#[test]
fn the_last_key_counts() {
    assert_eq!(parse_shortcut("A+B"), Ok(Shortcut { modifiers: NONE, key: KeyCode::KeyB }));
    assert_eq!(
        parse_shortcut("F1+Alt+F12+Space"),
        Ok(Shortcut { modifiers: Modifiers { alt: true, ..NONE }, key: KeyCode::Space })
    );
}

#[test]
fn the_first_unknown_name_is_reported() {
    assert_eq!(parse_shortcut("Ctrl+Q"), Err(ShortcutError::UnknownKey("Q".to_string())));
    assert_eq!(parse_shortcut("Hyper + X + A"), Err(ShortcutError::UnknownKey("Hyper".to_string())));
    assert_eq!(parse_shortcut("A+ zz top +??"), Err(ShortcutError::UnknownKey("zz top".to_string())));
    assert_eq!(parse_shortcut("ctrl+A"), Err(ShortcutError::UnknownKey("ctrl".to_string())));
    assert_eq!(parse_shortcut("F13"), Err(ShortcutError::UnknownKey("F13".to_string())));
    assert_eq!(parse_shortcut("Gr\u{fc}n+A"), Err(ShortcutError::UnknownKey("Gr\u{fc}n".to_string())));
}

#[test]
fn an_empty_name_is_unknown() {
    assert_eq!(parse_shortcut(""), Err(ShortcutError::UnknownKey(String::new())));
    assert_eq!(parse_shortcut("   "), Err(ShortcutError::UnknownKey(String::new())));
    assert_eq!(parse_shortcut("Ctrl++A"), Err(ShortcutError::UnknownKey(String::new())));
    assert_eq!(parse_shortcut("Ctrl+A+"), Err(ShortcutError::UnknownKey(String::new())));
    assert_eq!(parse_shortcut("+"), Err(ShortcutError::UnknownKey(String::new())));
}

#[test]
fn modifiers_alone_are_no_hotkey() {
    assert_eq!(parse_shortcut("Ctrl"), Err(ShortcutError::NoKeyCode));
    assert_eq!(parse_shortcut("Ctrl+Alt + Shift+Meta"), Err(ShortcutError::NoKeyCode));
}

#[test]
fn parsing_agrees_with_split_and_trim() {
    let names = [
        "Ctrl", "Control", "Alt", "Option", "Shift", "Cmd", "Command", "Meta", "Space", "Enter",
        "Tab", "Escape", "F1", "F10", "F12", "A", "B", "C", "V", "", " ", "Q", "CmdOrCtrl", " F2 ",
        "\tAlt", "F", "F123", "Spac", "Spacee",
    ];
    for a in names {
        assert_eq!(parse_shortcut(a), reference(a), "spelling = {:?}", a);
        for b in names {
            let two = format!("{}+{}", a, b);
            assert_eq!(parse_shortcut(&two), reference(&two), "spelling = {:?}", two);
            for c in ["A", "Shift", "x", " Meta "] {
                let three = format!("{}+{}+{}", a, b, c);
                assert_eq!(parse_shortcut(&three), reference(&three), "spelling = {:?}", three);
            }
        }
    }
}
