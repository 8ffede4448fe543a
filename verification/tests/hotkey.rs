use zecho::hotkey::{parse_hotkey, plan_change, Code, Modifiers};

fn held(control: bool, alt: bool, shift: bool, meta: bool) -> Option<Modifiers> {
    Some(Modifiers { control, alt, shift, meta })
}

#[test]
fn reads_the_default_hotkey() {
    assert_eq!(parse_hotkey("ctrl+shift+r"), Some((held(true, false, true, false), Code::KeyR)));
    assert_eq!(parse_hotkey("alt+space"), Some((held(false, true, false, false), Code::Space)));
}

#[test]
fn reads_each_modifier_under_each_name() {
    for name in ["ctrl", "control"] {
        assert_eq!(parse_hotkey(&format!("{}+a", name)), Some((held(true, false, false, false), Code::KeyA)));
    }
    for name in ["alt", "option", "opt"] {
        assert_eq!(parse_hotkey(&format!("{}+a", name)), Some((held(false, true, false, false), Code::KeyA)));
    }
    assert_eq!(parse_hotkey("shift+a"), Some((held(false, false, true, false), Code::KeyA)));
    for name in ["cmd", "command", "meta", "super"] {
        assert_eq!(parse_hotkey(&format!("{}+a", name)), Some((held(false, false, false, true), Code::KeyA)));
    }
}

#[test]
fn reads_each_key() {
    let keys = [
        ("space", Code::Space),
        ("a", Code::KeyA), ("b", Code::KeyB), ("c", Code::KeyC), ("d", Code::KeyD),
        ("e", Code::KeyE), ("f", Code::KeyF), ("g", Code::KeyG), ("h", Code::KeyH),
        ("i", Code::KeyI), ("j", Code::KeyJ), ("k", Code::KeyK), ("l", Code::KeyL),
        ("m", Code::KeyM), ("n", Code::KeyN), ("o", Code::KeyO), ("p", Code::KeyP),
        ("q", Code::KeyQ), ("r", Code::KeyR), ("s", Code::KeyS), ("t", Code::KeyT),
        ("u", Code::KeyU), ("v", Code::KeyV), ("w", Code::KeyW), ("x", Code::KeyX),
        ("y", Code::KeyY), ("z", Code::KeyZ),
        ("0", Code::Digit0), ("1", Code::Digit1), ("2", Code::Digit2), ("3", Code::Digit3),
        ("4", Code::Digit4), ("5", Code::Digit5), ("6", Code::Digit6), ("7", Code::Digit7),
        ("8", Code::Digit8), ("9", Code::Digit9),
        ("f1", Code::F1), ("f2", Code::F2), ("f3", Code::F3), ("f4", Code::F4),
        ("f5", Code::F5), ("f6", Code::F6), ("f7", Code::F7), ("f8", Code::F8),
        ("f9", Code::F9), ("f10", Code::F10), ("f11", Code::F11), ("f12", Code::F12),
    ];
    for (name, code) in keys {
        assert_eq!(parse_hotkey(name), Some((None, code)));
    }
}

#[test]
fn a_plus_means_modifiers() {
    assert_eq!(parse_hotkey("f5"), Some((None, Code::F5)));
    assert_eq!(parse_hotkey("shift+f5"), Some((held(false, false, true, false), Code::F5)));
}

#[test]
fn order_and_repetition_do_not_matter() {
    let all = Some((held(true, true, true, true), Code::KeyZ));
    assert_eq!(parse_hotkey("ctrl+alt+shift+cmd+z"), all);
    assert_eq!(parse_hotkey("super+shift+opt+control+shift+z"), all);
}

#[test]
fn case_and_spaces_do_not_matter() {
    let expected = Some((held(true, false, true, false), Code::KeyR));
    assert_eq!(parse_hotkey(" CTRL + Shift\t+ R "), expected);
    assert_eq!(parse_hotkey("\u{212A}"), Some((None, Code::KeyK)));
    assert_eq!(parse_hotkey("\u{3000}K\u{a0}"), Some((None, Code::KeyK)));
}

#[test]
fn what_is_no_hotkey_is_refused() {
    for text in ["", "+", "ctrl", "ctrl+", "ctrl++", "+a", "hyper+a", "a+ctrl", "a+b", "f13", "enter", "ctrl+\u{130}"] {
        assert_eq!(parse_hotkey(text), None, "{:?}", text);
    }
}

#[test]
fn a_change_gives_up_the_old_hotkey_first() {
    let change = plan_change("ctrl+a", "alt+b");
    assert_eq!(change.unregister, Some((held(true, false, false, false), Code::KeyA)));
    assert_eq!(change.register, Ok((held(false, true, false, false), Code::KeyB)));
    let change = plan_change("ctrl+a", "nonsense");
    assert_eq!(change.unregister, Some((held(true, false, false, false), Code::KeyA)));
    assert_eq!(change.register, Err("Invalid hotkey".to_string()));
    let change = plan_change("", "b");
    assert_eq!(change.unregister, None);
    assert_eq!(change.register, Ok((None, Code::KeyB)));
}
