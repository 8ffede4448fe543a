//! Hotkeys as the settings write them: modifiers and a key, joined by `+`.

use vstd::prelude::*;

use crate::text::{fold_chars, same_text, split_chars, string_of, trim_chars};

verus! {

/// The modifier keys that are held.
#[derive(Debug, Clone, Copy, PartialEq, Eq, Structural)]
pub struct Modifiers {
    pub control: bool,
    pub alt: bool,
    pub shift: bool,
    pub meta: bool,
}

/// The keys that a hotkey can have.
#[derive(Debug, Clone, Copy, PartialEq, Eq, Structural)]
pub enum Code {
    Space,
    KeyA,
    KeyB,
    KeyC,
    KeyD,
    KeyE,
    KeyF,
    KeyG,
    KeyH,
    KeyI,
    KeyJ,
    KeyK,
    KeyL,
    KeyM,
    KeyN,
    KeyO,
    KeyP,
    KeyQ,
    KeyR,
    KeyS,
    KeyT,
    KeyU,
    KeyV,
    KeyW,
    KeyX,
    KeyY,
    KeyZ,
    Digit0,
    Digit1,
    Digit2,
    Digit3,
    Digit4,
    Digit5,
    Digit6,
    Digit7,
    Digit8,
    Digit9,
    F1,
    F2,
    F3,
    F4,
    F5,
    F6,
    F7,
    F8,
    F9,
    F10,
    F11,
    F12,
}

/// No modifier at all.
pub open spec fn no_modifiers() -> Modifiers {
    Modifiers { control: false, alt: false, shift: false, meta: false }
}

/// Whether `name` names the control key.
pub open spec fn names_control(name: Seq<char>) -> bool {
    name == "ctrl"@ || name == "control"@
}

/// Whether `name` names the alt key.
pub open spec fn names_alt(name: Seq<char>) -> bool {
    name == "alt"@ || name == "option"@ || name == "opt"@
}

/// Whether `name` names the shift key.
pub open spec fn names_shift(name: Seq<char>) -> bool {
    name == "shift"@
}

/// Whether `name` names the command key.
pub open spec fn names_meta(name: Seq<char>) -> bool {
    name == "cmd"@ || name == "command"@ || name == "meta"@ || name == "super"@
}

/// Whether `name` names a modifier key.
pub open spec fn names_modifier(name: Seq<char>) -> bool {
    names_control(name) || names_alt(name) || names_shift(name) || names_meta(name)
}

/// The key with the name `name`, if there is one.
pub open spec fn key_named(name: Seq<char>) -> Option<Code> {
    if name == "space"@ {
        Some(Code::Space)
    } else if name == "a"@ {
        Some(Code::KeyA)
    } else if name == "b"@ {
        Some(Code::KeyB)
    } else if name == "c"@ {
        Some(Code::KeyC)
    } else if name == "d"@ {
        Some(Code::KeyD)
    } else if name == "e"@ {
        Some(Code::KeyE)
    } else if name == "f"@ {
        Some(Code::KeyF)
    } else if name == "g"@ {
        Some(Code::KeyG)
    } else if name == "h"@ {
        Some(Code::KeyH)
    } else if name == "i"@ {
        Some(Code::KeyI)
    } else if name == "j"@ {
        Some(Code::KeyJ)
    } else if name == "k"@ {
        Some(Code::KeyK)
    } else if name == "l"@ {
        Some(Code::KeyL)
    } else if name == "m"@ {
        Some(Code::KeyM)
    } else if name == "n"@ {
        Some(Code::KeyN)
    } else if name == "o"@ {
        Some(Code::KeyO)
    } else if name == "p"@ {
        Some(Code::KeyP)
    } else if name == "q"@ {
        Some(Code::KeyQ)
    } else if name == "r"@ {
        Some(Code::KeyR)
    } else if name == "s"@ {
        Some(Code::KeyS)
    } else if name == "t"@ {
        Some(Code::KeyT)
    } else if name == "u"@ {
        Some(Code::KeyU)
    } else if name == "v"@ {
        Some(Code::KeyV)
    } else if name == "w"@ {
        Some(Code::KeyW)
    } else if name == "x"@ {
        Some(Code::KeyX)
    } else if name == "y"@ {
        Some(Code::KeyY)
    } else if name == "z"@ {
        Some(Code::KeyZ)
    } else if name == "0"@ {
        Some(Code::Digit0)
    } else if name == "1"@ {
        Some(Code::Digit1)
    } else if name == "2"@ {
        Some(Code::Digit2)
    } else if name == "3"@ {
        Some(Code::Digit3)
    } else if name == "4"@ {
        Some(Code::Digit4)
    } else if name == "5"@ {
        Some(Code::Digit5)
    } else if name == "6"@ {
        Some(Code::Digit6)
    } else if name == "7"@ {
        Some(Code::Digit7)
    } else if name == "8"@ {
        Some(Code::Digit8)
    } else if name == "9"@ {
        Some(Code::Digit9)
    } else if name == "f1"@ {
        Some(Code::F1)
    } else if name == "f2"@ {
        Some(Code::F2)
    } else if name == "f3"@ {
        Some(Code::F3)
    } else if name == "f4"@ {
        Some(Code::F4)
    } else if name == "f5"@ {
        Some(Code::F5)
    } else if name == "f6"@ {
        Some(Code::F6)
    } else if name == "f7"@ {
        Some(Code::F7)
    } else if name == "f8"@ {
        Some(Code::F8)
    } else if name == "f9"@ {
        Some(Code::F9)
    } else if name == "f10"@ {
        Some(Code::F10)
    } else if name == "f11"@ {
        Some(Code::F11)
    } else if name == "f12"@ {
        Some(Code::F12)
    } else {
        None
    }
}

/// The names that a hotkey is made of: in lower case, without whitespace around
/// them.
pub open spec fn names_of(hotkey: Seq<char>) -> Seq<Seq<char>> {
    crate::text::split_on(hotkey, '+').map_values(
        |part: Seq<char>| crate::text::folded(crate::text::trimmed(part)),
    )
}

/// The modifiers among `names`.
pub open spec fn modifiers_in(names: Seq<Seq<char>>) -> Modifiers {
    Modifiers {
        control: exists|i: int| 0 <= i < names.len() && names_control(#[trigger] names[i]),
        alt: exists|i: int| 0 <= i < names.len() && names_alt(#[trigger] names[i]),
        shift: exists|i: int| 0 <= i < names.len() && names_shift(#[trigger] names[i]),
        meta: exists|i: int| 0 <= i < names.len() && names_meta(#[trigger] names[i]),
    }
}

/// Whether `names` spells a hotkey: the last names a key, all others modifiers.
pub open spec fn spells_hotkey(names: Seq<Seq<char>>) -> bool {
    &&& names.len() > 0
    &&& key_named(names.last()) is Some
    &&& forall|i: int| 0 <= i < names.len() - 1 ==> names_modifier(#[trigger] names[i])
}

/// The hotkey that `hotkey` writes: its modifiers, if it has any, and its key.
pub open spec fn hotkey_of(hotkey: Seq<char>) -> Option<(Option<Modifiers>, Code)> {
    let names = names_of(hotkey);
    if spells_hotkey(names) {
        let held = modifiers_in(names.drop_last());
        Some(
            (
                if held == no_modifiers() {
                    None
                } else {
                    Some(held)
                },
                key_named(names.last())->0,
            ),
        )
    } else {
        None
    }
}

fn find_key(name: &str) -> (r: Option<Code>)
    ensures
        r == key_named(name@),
{
    if same_text(name, "space") {
        Some(Code::Space)
    } else if same_text(name, "a") {
        Some(Code::KeyA)
    } else if same_text(name, "b") {
        Some(Code::KeyB)
    } else if same_text(name, "c") {
        Some(Code::KeyC)
    } else if same_text(name, "d") {
        Some(Code::KeyD)
    } else if same_text(name, "e") {
        Some(Code::KeyE)
    } else if same_text(name, "f") {
        Some(Code::KeyF)
    } else if same_text(name, "g") {
        Some(Code::KeyG)
    } else if same_text(name, "h") {
        Some(Code::KeyH)
    } else if same_text(name, "i") {
        Some(Code::KeyI)
    } else if same_text(name, "j") {
        Some(Code::KeyJ)
    } else if same_text(name, "k") {
        Some(Code::KeyK)
    } else if same_text(name, "l") {
        Some(Code::KeyL)
    } else if same_text(name, "m") {
        Some(Code::KeyM)
    } else if same_text(name, "n") {
        Some(Code::KeyN)
    } else if same_text(name, "o") {
        Some(Code::KeyO)
    } else if same_text(name, "p") {
        Some(Code::KeyP)
    } else if same_text(name, "q") {
        Some(Code::KeyQ)
    } else if same_text(name, "r") {
        Some(Code::KeyR)
    } else if same_text(name, "s") {
        Some(Code::KeyS)
    } else if same_text(name, "t") {
        Some(Code::KeyT)
    } else if same_text(name, "u") {
        Some(Code::KeyU)
    } else if same_text(name, "v") {
        Some(Code::KeyV)
    } else if same_text(name, "w") {
        Some(Code::KeyW)
    } else if same_text(name, "x") {
        Some(Code::KeyX)
    } else if same_text(name, "y") {
        Some(Code::KeyY)
    } else if same_text(name, "z") {
        Some(Code::KeyZ)
    } else if same_text(name, "0") {
        Some(Code::Digit0)
    } else if same_text(name, "1") {
        Some(Code::Digit1)
    } else if same_text(name, "2") {
        Some(Code::Digit2)
    } else if same_text(name, "3") {
        Some(Code::Digit3)
    } else if same_text(name, "4") {
        Some(Code::Digit4)
    } else if same_text(name, "5") {
        Some(Code::Digit5)
    } else if same_text(name, "6") {
        Some(Code::Digit6)
    } else if same_text(name, "7") {
        Some(Code::Digit7)
    } else if same_text(name, "8") {
        Some(Code::Digit8)
    } else if same_text(name, "9") {
        Some(Code::Digit9)
    } else if same_text(name, "f1") {
        Some(Code::F1)
    } else if same_text(name, "f2") {
        Some(Code::F2)
    } else if same_text(name, "f3") {
        Some(Code::F3)
    } else if same_text(name, "f4") {
        Some(Code::F4)
    } else if same_text(name, "f5") {
        Some(Code::F5)
    } else if same_text(name, "f6") {
        Some(Code::F6)
    } else if same_text(name, "f7") {
        Some(Code::F7)
    } else if same_text(name, "f8") {
        Some(Code::F8)
    } else if same_text(name, "f9") {
        Some(Code::F9)
    } else if same_text(name, "f10") {
        Some(Code::F10)
    } else if same_text(name, "f11") {
        Some(Code::F11)
    } else if same_text(name, "f12") {
        Some(Code::F12)
    } else {
        None
    }
}

fn name_parts(hotkey: &str) -> (r: Vec<String>)
    ensures
        r@.map_values(|s: String| s@) == names_of(hotkey@),
        r@.len() > 0,
{
    let parts = split_chars(hotkey, '+');
    let ghost pieces = parts@.map_values(|p: Vec<char>| p@);
    let mut names: Vec<String> = Vec::new();
    for i in 0..parts.len()
        invariant
            pieces == parts@.map_values(|p: Vec<char>| p@),
            pieces == crate::text::split_on(hotkey@, '+'),
            names@.len() == i,
            forall|j: int| 0 <= j < i ==> #[trigger] names@[j]@ == names_of(hotkey@)[j],
    {
        assert(pieces[i as int] == parts@[i as int]@);
        names.push(string_of(&fold_chars(&trim_chars(&parts[i]))));
    }
    assert(names@.map_values(|s: String| s@) == names_of(hotkey@));
    names
}

/// Reads a hotkey such as `ctrl+shift+r`.
pub fn parse_hotkey(hotkey: &str) -> (r: Option<(Option<Modifiers>, Code)>)
    ensures
        r == hotkey_of(hotkey@),
{
    let names = name_parts(hotkey);
    let ghost all = names@.map_values(|s: String| s@);
    let mut held = Modifiers { control: false, alt: false, shift: false, meta: false };
    let last = names.len() - 1;
    for i in 0..last
        invariant
            last == names@.len() - 1,
            all == names@.map_values(|s: String| s@),
            all == names_of(hotkey@),
            held == modifiers_in(all.take(i as int)),
            forall|j: int| 0 <= j < i ==> names_modifier(#[trigger] all[j]),
    {
        let name = names[i].as_str();
        let ghost before = all.take(i as int);
        let ghost after = all.take(i + 1);
        assert(name@ == all[i as int]);
        assert(after == before.push(name@));
        proof {
            lemma_one_more_name(before, name@);
        }
        if same_text(name, "ctrl") || same_text(name, "control") {
            held.control = true;
        } else if same_text(name, "alt") || same_text(name, "option") || same_text(name, "opt") {
            held.alt = true;
        } else if same_text(name, "shift") {
            held.shift = true;
        } else if same_text(name, "cmd") || same_text(name, "command") || same_text(name, "meta")
            || same_text(name, "super") {
            held.meta = true;
        } else {
            assert(!names_modifier(all[i as int]));
            return None;
        }
    }
    assert(all.take(last as int) == all.drop_last());
    assert(names@[last as int]@ == all.last());
    let code = match find_key(names[last].as_str()) {
        Some(code) => code,
        None => {
            return None;
        },
    };
    if held.control || held.alt || held.shift || held.meta {
        Some((Some(held), code))
    } else {
        Some((None, code))
    }
}

proof fn lemma_one_more_name(names: Seq<Seq<char>>, name: Seq<char>)
    ensures
        modifiers_in(names.push(name)) == (Modifiers {
            control: modifiers_in(names).control || names_control(name),
            alt: modifiers_in(names).alt || names_alt(name),
            shift: modifiers_in(names).shift || names_shift(name),
            meta: modifiers_in(names).meta || names_meta(name),
        }),
        names_control(name) ==> !names_alt(name) && !names_shift(name) && !names_meta(name),
        names_alt(name) ==> !names_control(name) && !names_shift(name) && !names_meta(name),
        names_shift(name) ==> !names_control(name) && !names_alt(name) && !names_meta(name),
        names_meta(name) ==> !names_control(name) && !names_alt(name) && !names_shift(name),
{
    let more = names.push(name);
    assert(more[names.len() as int] == name);
    assert forall|i: int| 0 <= i < names.len() implies more[i] == #[trigger] names[i] by {}
    reveal_strlit("ctrl");
    reveal_strlit("control");
    reveal_strlit("alt");
    reveal_strlit("option");
    reveal_strlit("opt");
    reveal_strlit("shift");
    reveal_strlit("cmd");
    reveal_strlit("command");
    reveal_strlit("meta");
    reveal_strlit("super");
    assert("ctrl"@[0] == 'c' && "ctrl"@[1] == 't' && "ctrl"@[2] == 'r');
    assert("control"@[0] == 'c' && "control"@[1] == 'o' && "control"@[2] == 'n');
    assert("alt"@[0] == 'a' && "alt"@[1] == 'l' && "alt"@[2] == 't');
    assert("option"@[0] == 'o' && "option"@[1] == 'p' && "option"@[2] == 't');
    assert("opt"@[0] == 'o' && "opt"@[1] == 'p' && "opt"@[2] == 't');
    assert("shift"@[0] == 's' && "shift"@[1] == 'h' && "shift"@[2] == 'i');
    assert("cmd"@[0] == 'c' && "cmd"@[1] == 'm' && "cmd"@[2] == 'd');
    assert("command"@[0] == 'c' && "command"@[1] == 'o' && "command"@[2] == 'm');
    assert("meta"@[0] == 'm' && "meta"@[1] == 'e' && "meta"@[2] == 't');
    assert("super"@[0] == 's' && "super"@[1] == 'u' && "super"@[2] == 'p');
}

/// What a change of the hotkey asks for.
pub struct HotkeyChange {
    /// The old hotkey, to be given up.
    pub unregister: Option<(Option<Modifiers>, Code)>,
    /// The new hotkey, to be taken up, or why there is none.
    pub register: Result<(Option<Modifiers>, Code), String>,
}

/// Plans the change from the hotkey `old` to `new`: the old one is given up if it
/// could be read, and the new one is taken up if it can be.
pub fn plan_change(old: &str, new: &str) -> (r: HotkeyChange)
    ensures
        r.unregister == hotkey_of(old@),
        match hotkey_of(new@) {
            Some(hotkey) => r.register == Ok::<(Option<Modifiers>, Code), String>(hotkey),
            None => r.register matches Err(e) && e@ == "Invalid hotkey"@,
        },
{
    HotkeyChange {
        unregister: parse_hotkey(old),
        register: match parse_hotkey(new) {
            Some(hotkey) => Ok(hotkey),
            None => Err("Invalid hotkey".to_string()),
        },
    }
}

/// A hotkey has modifiers exactly if it is written with a `+`.
pub proof fn law_plus_means_modifiers(hotkey: Seq<char>)
    ensures
        hotkey_of(hotkey) matches Some((held, _)) ==> (held is Some <==> hotkey.contains('+')),
{
    crate::text::lemma_split_len(hotkey, '+');
    let names = names_of(hotkey);
    if spells_hotkey(names) {
        let others = names.drop_last();
        let held = modifiers_in(others);
        if names.len() > 1 {
            assert(names_modifier(names[0]));
            assert(others[0] == names[0]);
            assert(held.control || held.alt || held.shift || held.meta);
        }
    }
}

/// The order of the modifiers does not matter, nor how often one is named.
pub proof fn law_modifiers_are_a_set(some: Seq<Seq<char>>, others: Seq<Seq<char>>)
    requires
        forall|name: Seq<char>| #[trigger] some.contains(name) <==> others.contains(name),
    ensures
        modifiers_in(some) == modifiers_in(others),
{
    lemma_modifiers_within(some, others);
    lemma_modifiers_within(others, some);
}

proof fn lemma_modifiers_within(some: Seq<Seq<char>>, others: Seq<Seq<char>>)
    requires
        forall|name: Seq<char>| #[trigger] some.contains(name) ==> others.contains(name),
    ensures
        modifiers_in(some).control ==> modifiers_in(others).control,
        modifiers_in(some).alt ==> modifiers_in(others).alt,
        modifiers_in(some).shift ==> modifiers_in(others).shift,
        modifiers_in(some).meta ==> modifiers_in(others).meta,
{
    assert forall|i: int| 0 <= i < some.len() implies exists|j: int|
        0 <= j < others.len() && #[trigger] others[j] == #[trigger] some[i] by {
        assert(some.contains(some[i]));
        assert(others.contains(some[i]));
    }
}

/// Case does not matter: a hotkey is read as it is in lower case.
pub proof fn law_case_does_not_matter(hotkey: Seq<char>)
    ensures
        hotkey_of(crate::text::folded(hotkey)) == hotkey_of(hotkey),
{
    crate::text::lemma_split_folded(hotkey, '+');
    let parts = crate::text::split_on(hotkey, '+');
    let low = crate::text::split_on(crate::text::folded(hotkey), '+');
    assert forall|i: int| 0 <= i < parts.len() implies #[trigger] names_of(hotkey)[i] == names_of(
        crate::text::folded(hotkey),
    )[i] by {
        crate::text::lemma_trim_folded(parts[i]);
        crate::text::lemma_folded_twice(crate::text::trimmed(parts[i]));
        assert(low[i] == crate::text::folded(parts[i]));
    }
    assert(names_of(hotkey) == names_of(crate::text::folded(hotkey)));
}

/// Whether `word` is one of the names in front of the last.
pub open spec fn named_before_key(names: Seq<Seq<char>>, word: Seq<char>) -> bool {
    exists|i: int| 0 <= i < names.len() - 1 && #[trigger] names[i] == word
}

/// Each modifier is held exactly if one of the names in front of the key names it,
/// whatever other modifiers are named: control as `ctrl` or `control`, alt as `alt`,
/// `option` or `opt`, shift as `shift`, and the command key as `cmd`, `command`, `meta`
/// or `super`. The key is the one that the last name names.
pub proof fn law_each_modifier_is_held(hotkey: Seq<char>)
    ensures
        hotkey_of(hotkey) matches Some((held, code)) ==> {
            let names = names_of(hotkey);
            &&& names.len() > 0
            &&& key_named(names.last()) == Some(code)
            &&& held is None <==> names.len() == 1
            &&& held matches Some(m) ==> {
                &&& m.control <==> named_before_key(names, "ctrl"@) || named_before_key(
                    names,
                    "control"@,
                )
                &&& m.alt <==> named_before_key(names, "alt"@) || named_before_key(
                    names,
                    "option"@,
                ) || named_before_key(names, "opt"@)
                &&& m.shift <==> named_before_key(names, "shift"@)
                &&& m.meta <==> named_before_key(names, "cmd"@) || named_before_key(
                    names,
                    "command"@,
                ) || named_before_key(names, "meta"@) || named_before_key(names, "super"@)
            }
        },
{
    let names = names_of(hotkey);
    if spells_hotkey(names) {
        let others = names.drop_last();
        let held = modifiers_in(others);
        assert forall|i: int| 0 <= i < others.len() implies #[trigger] others[i] == names[i] by {}
        assert forall|i: int| 0 <= i < names.len() - 1 implies #[trigger] names[i] == others[i] by {
        }
        if names.len() > 1 {
            assert(names_modifier(names[0]));
            assert(others[0] == names[0]);
            assert(held.control || held.alt || held.shift || held.meta);
        }
    }
}

/// A text can be read as a hotkey exactly if its last name names a key and every name in
/// front of it is one of the ten names of modifiers.
pub proof fn law_what_can_be_read(hotkey: Seq<char>)
    ensures
        hotkey_of(hotkey) is Some <==> {
            let names = names_of(hotkey);
            &&& key_named(names.last()) is Some
            &&& forall|i: int|
                0 <= i < names.len() - 1 ==> {
                    ||| #[trigger] names[i] == "ctrl"@ || names[i] == "control"@
                    ||| names[i] == "alt"@ || names[i] == "option"@ || names[i] == "opt"@
                    ||| names[i] == "shift"@
                    ||| names[i] == "cmd"@ || names[i] == "command"@
                    ||| names[i] == "meta"@ || names[i] == "super"@
                }
        },
{
    crate::text::lemma_split_len(hotkey, '+');
}

/// The names of a hotkey are the texts between its `+` signs, in order, each in lower
/// case and without the whitespace around it.
pub proof fn law_names(a: Seq<char>, b: Seq<char>)
    ensures
        names_of(a + seq!['+'] + b) == names_of(a) + names_of(b),
        !a.contains('+') ==> names_of(a) == seq![crate::text::folded(crate::text::trimmed(a))],
{
    crate::text::law_split(a, b, '+');
    assert(names_of(a + seq!['+'] + b) == names_of(a) + names_of(b));
    if !a.contains('+') {
        assert(names_of(a) == seq![crate::text::folded(crate::text::trimmed(a))]);
    }
}

/// Naming a modifier in front of a hotkey holds it besides the others, and changes
/// neither those nor the key.
pub proof fn law_one_modifier_more(modifier: Seq<char>, hotkey: Seq<char>)
    requires
        !modifier.contains('+'),
        names_modifier(crate::text::folded(crate::text::trimmed(modifier))),
        hotkey_of(hotkey) is Some,
    ensures
        ({
            let name = crate::text::folded(crate::text::trimmed(modifier));
            let (held, code) = hotkey_of(hotkey)->0;
            let before = match held {
                Some(m) => m,
                None => Modifiers { control: false, alt: false, shift: false, meta: false },
            };
            hotkey_of(modifier + seq!['+'] + hotkey) == Some(
                (
                    Some(
                        Modifiers {
                            control: before.control || name == "ctrl"@ || name == "control"@,
                            alt: before.alt || name == "alt"@ || name == "option"@ || name
                                == "opt"@,
                            shift: before.shift || name == "shift"@,
                            meta: before.meta || name == "cmd"@ || name == "command"@ || name
                                == "meta"@ || name == "super"@,
                        },
                    ),
                    code,
                ),
            )
        }),
{
    let name = crate::text::folded(crate::text::trimmed(modifier));
    let names = names_of(hotkey);
    let all = names_of(modifier + seq!['+'] + hotkey);
    law_names(modifier, hotkey);
    assert(all == seq![name] + names);
    assert(all.last() == names.last());
    let others = names.drop_last();
    let more = all.drop_last();
    assert(more == seq![name] + others);
    assert forall|i: int| 0 <= i < all.len() - 1 implies names_modifier(#[trigger] all[i]) by {
        if i > 0 {
            assert(all[i] == names[i - 1]);
        }
    }
    assert(spells_hotkey(all));
    assert(more[0] == name);
    assert forall|i: int| 0 <= i < others.len() implies #[trigger] others[i] == more[i + 1] by {}
    assert forall|i: int| 0 < i < more.len() implies #[trigger] more[i] == others[i - 1] by {}
    let held = modifiers_in(others);
    let now = modifiers_in(more);
    assert(now.control == (held.control || names_control(name)));
    assert(now.alt == (held.alt || names_alt(name)));
    assert(now.shift == (held.shift || names_shift(name)));
    assert(now.meta == (held.meta || names_meta(name)));
}

/// The names of keys are `space`, a letter, a digit, and `f1` to `f12`; no others.
pub proof fn law_key_names(name: Seq<char>)
    ensures
        key_named(name) is Some <==> {
            ||| name == "space"@
            ||| name.len() == 1 && ('a' <= name[0] && name[0] <= 'z')
            ||| name.len() == 1 && ('0' <= name[0] && name[0] <= '9')
            ||| name.len() == 2 && name[0] == 'f' && '1' <= name[1] && name[1] <= '9'
            ||| name.len() == 3 && name[0] == 'f' && name[1] == '1' && '0' <= name[2] && name[2]
                <= '2'
        },
{
    reveal_strlit("space");
    reveal_strlit("a");
    reveal_strlit("b");
    reveal_strlit("c");
    reveal_strlit("d");
    reveal_strlit("e");
    reveal_strlit("f");
    reveal_strlit("g");
    reveal_strlit("h");
    reveal_strlit("i");
    reveal_strlit("j");
    reveal_strlit("k");
    reveal_strlit("l");
    reveal_strlit("m");
    reveal_strlit("n");
    reveal_strlit("o");
    reveal_strlit("p");
    reveal_strlit("q");
    reveal_strlit("r");
    reveal_strlit("s");
    reveal_strlit("t");
    reveal_strlit("u");
    reveal_strlit("v");
    reveal_strlit("w");
    reveal_strlit("x");
    reveal_strlit("y");
    reveal_strlit("z");
    reveal_strlit("0");
    reveal_strlit("1");
    reveal_strlit("2");
    reveal_strlit("3");
    reveal_strlit("4");
    reveal_strlit("5");
    reveal_strlit("6");
    reveal_strlit("7");
    reveal_strlit("8");
    reveal_strlit("9");
    reveal_strlit("f1");
    reveal_strlit("f2");
    reveal_strlit("f3");
    reveal_strlit("f4");
    reveal_strlit("f5");
    reveal_strlit("f6");
    reveal_strlit("f7");
    reveal_strlit("f8");
    reveal_strlit("f9");
    reveal_strlit("f10");
    reveal_strlit("f11");
    reveal_strlit("f12");
    assert(name.len() == 1 && name[0] == 'a' ==> name =~= "a"@);
    assert(name.len() == 1 && name[0] == 'b' ==> name =~= "b"@);
    assert(name.len() == 1 && name[0] == 'c' ==> name =~= "c"@);
    assert(name.len() == 1 && name[0] == 'd' ==> name =~= "d"@);
    assert(name.len() == 1 && name[0] == 'e' ==> name =~= "e"@);
    assert(name.len() == 1 && name[0] == 'f' ==> name =~= "f"@);
    assert(name.len() == 1 && name[0] == 'g' ==> name =~= "g"@);
    assert(name.len() == 1 && name[0] == 'h' ==> name =~= "h"@);
    assert(name.len() == 1 && name[0] == 'i' ==> name =~= "i"@);
    assert(name.len() == 1 && name[0] == 'j' ==> name =~= "j"@);
    assert(name.len() == 1 && name[0] == 'k' ==> name =~= "k"@);
    assert(name.len() == 1 && name[0] == 'l' ==> name =~= "l"@);
    assert(name.len() == 1 && name[0] == 'm' ==> name =~= "m"@);
    assert(name.len() == 1 && name[0] == 'n' ==> name =~= "n"@);
    assert(name.len() == 1 && name[0] == 'o' ==> name =~= "o"@);
    assert(name.len() == 1 && name[0] == 'p' ==> name =~= "p"@);
    assert(name.len() == 1 && name[0] == 'q' ==> name =~= "q"@);
    assert(name.len() == 1 && name[0] == 'r' ==> name =~= "r"@);
    assert(name.len() == 1 && name[0] == 's' ==> name =~= "s"@);
    assert(name.len() == 1 && name[0] == 't' ==> name =~= "t"@);
    assert(name.len() == 1 && name[0] == 'u' ==> name =~= "u"@);
    assert(name.len() == 1 && name[0] == 'v' ==> name =~= "v"@);
    assert(name.len() == 1 && name[0] == 'w' ==> name =~= "w"@);
    assert(name.len() == 1 && name[0] == 'x' ==> name =~= "x"@);
    assert(name.len() == 1 && name[0] == 'y' ==> name =~= "y"@);
    assert(name.len() == 1 && name[0] == 'z' ==> name =~= "z"@);
    assert(name.len() == 1 && name[0] == '0' ==> name =~= "0"@);
    assert(name.len() == 1 && name[0] == '1' ==> name =~= "1"@);
    assert(name.len() == 1 && name[0] == '2' ==> name =~= "2"@);
    assert(name.len() == 1 && name[0] == '3' ==> name =~= "3"@);
    assert(name.len() == 1 && name[0] == '4' ==> name =~= "4"@);
    assert(name.len() == 1 && name[0] == '5' ==> name =~= "5"@);
    assert(name.len() == 1 && name[0] == '6' ==> name =~= "6"@);
    assert(name.len() == 1 && name[0] == '7' ==> name =~= "7"@);
    assert(name.len() == 1 && name[0] == '8' ==> name =~= "8"@);
    assert(name.len() == 1 && name[0] == '9' ==> name =~= "9"@);
    assert(name.len() == 2 && name[0] == 'f' && name[1] == '1' ==> name =~= "f1"@);
    assert(name.len() == 2 && name[0] == 'f' && name[1] == '2' ==> name =~= "f2"@);
    assert(name.len() == 2 && name[0] == 'f' && name[1] == '3' ==> name =~= "f3"@);
    assert(name.len() == 2 && name[0] == 'f' && name[1] == '4' ==> name =~= "f4"@);
    assert(name.len() == 2 && name[0] == 'f' && name[1] == '5' ==> name =~= "f5"@);
    assert(name.len() == 2 && name[0] == 'f' && name[1] == '6' ==> name =~= "f6"@);
    assert(name.len() == 2 && name[0] == 'f' && name[1] == '7' ==> name =~= "f7"@);
    assert(name.len() == 2 && name[0] == 'f' && name[1] == '8' ==> name =~= "f8"@);
    assert(name.len() == 2 && name[0] == 'f' && name[1] == '9' ==> name =~= "f9"@);
    assert(name.len() == 3 && name[0] == 'f' && name[1] == '1' && name[2] == '0' ==> name =~= "f10"@);
    assert(name.len() == 3 && name[0] == 'f' && name[1] == '1' && name[2] == '1' ==> name =~= "f11"@);
    assert(name.len() == 3 && name[0] == 'f' && name[1] == '1' && name[2] == '2' ==> name =~= "f12"@);
}

/// Each name names its own key: no two names name the same.
pub proof fn law_keys(one: Seq<char>, other: Seq<char>)
    ensures
        key_named("space"@) == Some(Code::Space),
        key_named("a"@) == Some(Code::KeyA),
        key_named("b"@) == Some(Code::KeyB),
        key_named("c"@) == Some(Code::KeyC),
        key_named("d"@) == Some(Code::KeyD),
        key_named("e"@) == Some(Code::KeyE),
        key_named("f"@) == Some(Code::KeyF),
        key_named("g"@) == Some(Code::KeyG),
        key_named("h"@) == Some(Code::KeyH),
        key_named("i"@) == Some(Code::KeyI),
        key_named("j"@) == Some(Code::KeyJ),
        key_named("k"@) == Some(Code::KeyK),
        key_named("l"@) == Some(Code::KeyL),
        key_named("m"@) == Some(Code::KeyM),
        key_named("n"@) == Some(Code::KeyN),
        key_named("o"@) == Some(Code::KeyO),
        key_named("p"@) == Some(Code::KeyP),
        key_named("q"@) == Some(Code::KeyQ),
        key_named("r"@) == Some(Code::KeyR),
        key_named("s"@) == Some(Code::KeyS),
        key_named("t"@) == Some(Code::KeyT),
        key_named("u"@) == Some(Code::KeyU),
        key_named("v"@) == Some(Code::KeyV),
        key_named("w"@) == Some(Code::KeyW),
        key_named("x"@) == Some(Code::KeyX),
        key_named("y"@) == Some(Code::KeyY),
        key_named("z"@) == Some(Code::KeyZ),
        key_named("0"@) == Some(Code::Digit0),
        key_named("1"@) == Some(Code::Digit1),
        key_named("2"@) == Some(Code::Digit2),
        key_named("3"@) == Some(Code::Digit3),
        key_named("4"@) == Some(Code::Digit4),
        key_named("5"@) == Some(Code::Digit5),
        key_named("6"@) == Some(Code::Digit6),
        key_named("7"@) == Some(Code::Digit7),
        key_named("8"@) == Some(Code::Digit8),
        key_named("9"@) == Some(Code::Digit9),
        key_named("f1"@) == Some(Code::F1),
        key_named("f2"@) == Some(Code::F2),
        key_named("f3"@) == Some(Code::F3),
        key_named("f4"@) == Some(Code::F4),
        key_named("f5"@) == Some(Code::F5),
        key_named("f6"@) == Some(Code::F6),
        key_named("f7"@) == Some(Code::F7),
        key_named("f8"@) == Some(Code::F8),
        key_named("f9"@) == Some(Code::F9),
        key_named("f10"@) == Some(Code::F10),
        key_named("f11"@) == Some(Code::F11),
        key_named("f12"@) == Some(Code::F12),
        key_named(one) is Some && key_named(one) == key_named(other) ==> one == other,
{
    reveal_strlit("space");
    reveal_strlit("a");
    reveal_strlit("b");
    reveal_strlit("c");
    reveal_strlit("d");
    reveal_strlit("e");
    reveal_strlit("f");
    reveal_strlit("g");
    reveal_strlit("h");
    reveal_strlit("i");
    reveal_strlit("j");
    reveal_strlit("k");
    reveal_strlit("l");
    reveal_strlit("m");
    reveal_strlit("n");
    reveal_strlit("o");
    reveal_strlit("p");
    reveal_strlit("q");
    reveal_strlit("r");
    reveal_strlit("s");
    reveal_strlit("t");
    reveal_strlit("u");
    reveal_strlit("v");
    reveal_strlit("w");
    reveal_strlit("x");
    reveal_strlit("y");
    reveal_strlit("z");
    reveal_strlit("0");
    reveal_strlit("1");
    reveal_strlit("2");
    reveal_strlit("3");
    reveal_strlit("4");
    reveal_strlit("5");
    reveal_strlit("6");
    reveal_strlit("7");
    reveal_strlit("8");
    reveal_strlit("9");
    reveal_strlit("f1");
    reveal_strlit("f2");
    reveal_strlit("f3");
    reveal_strlit("f4");
    reveal_strlit("f5");
    reveal_strlit("f6");
    reveal_strlit("f7");
    reveal_strlit("f8");
    reveal_strlit("f9");
    reveal_strlit("f10");
    reveal_strlit("f11");
    reveal_strlit("f12");
    assert("space"@.len() == 5 && "space"@[0] == 's' && "space"@[1] == 'p' && "space"@[2] == 'a');
    assert("a"@.len() == 1 && "a"@[0] == 'a');
    assert("b"@.len() == 1 && "b"@[0] == 'b');
    assert("c"@.len() == 1 && "c"@[0] == 'c');
    assert("d"@.len() == 1 && "d"@[0] == 'd');
    assert("e"@.len() == 1 && "e"@[0] == 'e');
    assert("f"@.len() == 1 && "f"@[0] == 'f');
    assert("g"@.len() == 1 && "g"@[0] == 'g');
    assert("h"@.len() == 1 && "h"@[0] == 'h');
    assert("i"@.len() == 1 && "i"@[0] == 'i');
    assert("j"@.len() == 1 && "j"@[0] == 'j');
    assert("k"@.len() == 1 && "k"@[0] == 'k');
    assert("l"@.len() == 1 && "l"@[0] == 'l');
    assert("m"@.len() == 1 && "m"@[0] == 'm');
    assert("n"@.len() == 1 && "n"@[0] == 'n');
    assert("o"@.len() == 1 && "o"@[0] == 'o');
    assert("p"@.len() == 1 && "p"@[0] == 'p');
    assert("q"@.len() == 1 && "q"@[0] == 'q');
    assert("r"@.len() == 1 && "r"@[0] == 'r');
    assert("s"@.len() == 1 && "s"@[0] == 's');
    assert("t"@.len() == 1 && "t"@[0] == 't');
    assert("u"@.len() == 1 && "u"@[0] == 'u');
    assert("v"@.len() == 1 && "v"@[0] == 'v');
    assert("w"@.len() == 1 && "w"@[0] == 'w');
    assert("x"@.len() == 1 && "x"@[0] == 'x');
    assert("y"@.len() == 1 && "y"@[0] == 'y');
    assert("z"@.len() == 1 && "z"@[0] == 'z');
    assert("0"@.len() == 1 && "0"@[0] == '0');
    assert("1"@.len() == 1 && "1"@[0] == '1');
    assert("2"@.len() == 1 && "2"@[0] == '2');
    assert("3"@.len() == 1 && "3"@[0] == '3');
    assert("4"@.len() == 1 && "4"@[0] == '4');
    assert("5"@.len() == 1 && "5"@[0] == '5');
    assert("6"@.len() == 1 && "6"@[0] == '6');
    assert("7"@.len() == 1 && "7"@[0] == '7');
    assert("8"@.len() == 1 && "8"@[0] == '8');
    assert("9"@.len() == 1 && "9"@[0] == '9');
    assert("f1"@.len() == 2 && "f1"@[0] == 'f' && "f1"@[1] == '1');
    assert("f2"@.len() == 2 && "f2"@[0] == 'f' && "f2"@[1] == '2');
    assert("f3"@.len() == 2 && "f3"@[0] == 'f' && "f3"@[1] == '3');
    assert("f4"@.len() == 2 && "f4"@[0] == 'f' && "f4"@[1] == '4');
    assert("f5"@.len() == 2 && "f5"@[0] == 'f' && "f5"@[1] == '5');
    assert("f6"@.len() == 2 && "f6"@[0] == 'f' && "f6"@[1] == '6');
    assert("f7"@.len() == 2 && "f7"@[0] == 'f' && "f7"@[1] == '7');
    assert("f8"@.len() == 2 && "f8"@[0] == 'f' && "f8"@[1] == '8');
    assert("f9"@.len() == 2 && "f9"@[0] == 'f' && "f9"@[1] == '9');
    assert("f10"@.len() == 3 && "f10"@[0] == 'f' && "f10"@[1] == '1' && "f10"@[2] == '0');
    assert("f11"@.len() == 3 && "f11"@[0] == 'f' && "f11"@[1] == '1' && "f11"@[2] == '1');
    assert("f12"@.len() == 3 && "f12"@[0] == 'f' && "f12"@[1] == '1' && "f12"@[2] == '2');
}

/// What `parse_hotkey` comes to: a modifier is held exactly if one of the names in front of
/// the key names it, whatever else is held.
pub proof fn law_hotkey_is_read(hotkey: &str, r: Option<(Option<Modifiers>, Code)>)
    requires
        call_ensures(parse_hotkey, (hotkey,), r),
    ensures
        r == hotkey_of(hotkey@),
        r matches Some((Some(m), code)) ==> {
            let names = names_of(hotkey@);
            &&& m.control <==> named_before_key(names, "ctrl"@) || named_before_key(
                names,
                "control"@,
            )
            &&& m.alt <==> named_before_key(names, "alt"@) || named_before_key(names, "option"@)
                || named_before_key(names, "opt"@)
            &&& m.shift <==> named_before_key(names, "shift"@)
            &&& m.meta <==> named_before_key(names, "cmd"@) || named_before_key(names, "command"@)
                || named_before_key(names, "meta"@) || named_before_key(names, "super"@)
            &&& key_named(names.last()) == Some(code)
        },
{
    law_each_modifier_is_held(hotkey@);
}

/// A change of the hotkey gives up what the old text says and takes up what the new one
/// says, each read by itself; a new text that says nothing is refused, and the old hotkey is
/// given up all the same.
pub proof fn law_change_of_hotkey(old_text: &str, new_text: &str, r: HotkeyChange)
    requires
        call_ensures(plan_change, (old_text, new_text), r),
    ensures
        r.unregister == hotkey_of(old_text@),
        r.register is Ok <==> hotkey_of(new_text@) is Some,
        r.register matches Ok(hotkey) ==> hotkey_of(new_text@) == Some(hotkey),
        r.register matches Err(e) ==> e@ == "Invalid hotkey"@,
{
}

} // verus!
