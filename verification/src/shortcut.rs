//! The hotkey as the settings spell it: key names joined by `+`, such as
//! `Option+Space` or `Ctrl + Shift + F9`.

use crate::text::{chars_of, spells, trim_bounds, trimmed};
use vstd::prelude::*;
use vstd::string::{StrSliceExecFns, StringExecFns};

verus! {

/// The keys a hotkey can end in.
#[derive(Clone, Copy, Debug, PartialEq, Eq, Structural)]
pub enum KeyCode {
    Space,
    Enter,
    Tab,
    Escape,
    F1,
    F2,
    F3,
    F4,
    F5,
    F6,
    F7,
    F8,
    F9,
    F10,
    F11,
    F12,
    KeyA,
    KeyB,
    KeyC,
    KeyV,
}

/// The keys held down with it.
#[derive(Clone, Copy, Debug, PartialEq, Eq, Structural)]
pub struct Modifiers {
    pub control: bool,
    pub alt: bool,
    pub shift: bool,
    pub meta: bool,
}

/// A hotkey: one key and the modifiers held with it.
#[derive(Clone, Copy, Debug, PartialEq, Eq, Structural)]
pub struct Shortcut {
    pub modifiers: Modifiers,
    pub key: KeyCode,
}

/// What one name between two `+` stands for.
#[derive(Clone, Copy, Debug, PartialEq, Eq, Structural)]
pub enum Token {
    Control,
    Alt,
    Shift,
    Meta,
    Key(KeyCode),
}

/// Why a spelling is no hotkey.
#[derive(Clone, Debug, PartialEq, Eq)]
pub enum ShortcutError {
    /// This name, trimmed, is none the parser knows.
    UnknownKey(String),
    /// The spelling names modifiers only.
    NoKeyCode,
}

/// The outcome of parsing, with the unknown name by its characters.
pub enum Parsed {
    Hotkey(Shortcut),
    UnknownKey(Seq<char>),
    NoKeyCode,
}

/// Index of the first `+` in `s`, and the length of `s` where it has none.
pub open spec fn first_plus(s: Seq<char>) -> nat
    decreases s.len(),
{
    if s.len() == 0 || s[0] == '+' {
        0
    } else {
        1 + first_plus(s.drop_first())
    }
}

/// The table of names.
pub open spec fn token_of(name: Seq<char>) -> Option<Token> {
    if name == "Ctrl"@ || name == "Control"@ {
        Some(Token::Control)
    } else if name == "Alt"@ || name == "Option"@ {
        Some(Token::Alt)
    } else if name == "Shift"@ {
        Some(Token::Shift)
    } else if name == "Cmd"@ || name == "Command"@ || name == "Meta"@ {
        Some(Token::Meta)
    } else if name == "Space"@ {
        Some(Token::Key(KeyCode::Space))
    } else if name == "Enter"@ {
        Some(Token::Key(KeyCode::Enter))
    } else if name == "Tab"@ {
        Some(Token::Key(KeyCode::Tab))
    } else if name == "Escape"@ {
        Some(Token::Key(KeyCode::Escape))
    } else if name == "F1"@ {
        Some(Token::Key(KeyCode::F1))
    } else if name == "F2"@ {
        Some(Token::Key(KeyCode::F2))
    } else if name == "F3"@ {
        Some(Token::Key(KeyCode::F3))
    } else if name == "F4"@ {
        Some(Token::Key(KeyCode::F4))
    } else if name == "F5"@ {
        Some(Token::Key(KeyCode::F5))
    } else if name == "F6"@ {
        Some(Token::Key(KeyCode::F6))
    } else if name == "F7"@ {
        Some(Token::Key(KeyCode::F7))
    } else if name == "F8"@ {
        Some(Token::Key(KeyCode::F8))
    } else if name == "F9"@ {
        Some(Token::Key(KeyCode::F9))
    } else if name == "F10"@ {
        Some(Token::Key(KeyCode::F10))
    } else if name == "F11"@ {
        Some(Token::Key(KeyCode::F11))
    } else if name == "F12"@ {
        Some(Token::Key(KeyCode::F12))
    } else if name == "A"@ {
        Some(Token::Key(KeyCode::KeyA))
    } else if name == "B"@ {
        Some(Token::Key(KeyCode::KeyB))
    } else if name == "C"@ {
        Some(Token::Key(KeyCode::KeyC))
    } else if name == "V"@ {
        Some(Token::Key(KeyCode::KeyV))
    } else {
        None
    }
}

/// The modifiers with one more name read.
pub open spec fn with_token(modifiers: Modifiers, token: Token) -> Modifiers {
    match token {
        Token::Control => Modifiers { control: true, ..modifiers },
        Token::Alt => Modifiers { alt: true, ..modifiers },
        Token::Shift => Modifiers { shift: true, ..modifiers },
        Token::Meta => Modifiers { meta: true, ..modifiers },
        Token::Key(_) => modifiers,
    }
}

/// The key with one more name read: a later key replaces an earlier one.
pub open spec fn key_after(key: Option<KeyCode>, token: Token) -> Option<KeyCode> {
    match token {
        Token::Key(code) => Some(code),
        _ => key,
    }
}

/// Reads the names of `s` from the left, on top of what was read before.
/// The first unknown name ends the reading; a spelling without a key is
/// none.
pub open spec fn parse_from(s: Seq<char>, modifiers: Modifiers, key: Option<KeyCode>) -> Parsed
    decreases s.len(),
{
    let end = first_plus(s);
    let name = trimmed(s.take(end as int));
    match token_of(name) {
        None => Parsed::UnknownKey(name),
        Some(token) => {
            if end >= s.len() {
                match key_after(key, token) {
                    Some(code) => Parsed::Hotkey(
                        Shortcut { modifiers: with_token(modifiers, token), key: code },
                    ),
                    None => Parsed::NoKeyCode,
                }
            } else {
                parse_from(
                    s.skip(end as int + 1),
                    with_token(modifiers, token),
                    key_after(key, token),
                )
            }
        },
    }
}

/// No modifier at all.
pub open spec fn no_modifiers() -> Modifiers {
    Modifiers { control: false, alt: false, shift: false, meta: false }
}

/// What a spelling parses to.
pub open spec fn parsed(s: Seq<char>) -> Parsed {
    parse_from(s, no_modifiers(), None)
}

/// A result of `parse_shortcut` by its characters.
pub open spec fn parsed_view(r: Result<Shortcut, ShortcutError>) -> Parsed {
    match r {
        Ok(shortcut) => Parsed::Hotkey(shortcut),
        Err(ShortcutError::UnknownKey(name)) => Parsed::UnknownKey(name@),
        Err(ShortcutError::NoKeyCode) => Parsed::NoKeyCode,
    }
}

/// Index of the first `+` at or after `from`, or the length.
fn find_plus(s: &[char], from: usize) -> (end: usize)
    requires
        from <= s@.len(),
    ensures
        from <= end <= s@.len(),
        end - from == first_plus(s@.skip(from as int)),
{
    let len: usize = s.len();
    let mut end: usize = from;
    while end < len && s[end] != '+'
        invariant
            from <= end <= len == s@.len(),
            first_plus(s@.skip(from as int)) == (end - from) + first_plus(s@.skip(end as int)),
        decreases len - end,
    {
        proof {
            assert(s@.skip(end as int).drop_first() =~= s@.skip(end + 1));
        }
        end = end + 1;
    }
    end
}

/// Looks the name `s[from..to]` up in the table.
fn read_token(s: &[char], from: usize, to: usize) -> (token: Option<Token>)
    requires
        from <= to <= s@.len(),
    ensures
        token == token_of(s@.subrange(from as int, to as int)),
{
    if spells(s, from, to, "Ctrl") || spells(s, from, to, "Control") {
        Some(Token::Control)
    } else if spells(s, from, to, "Alt") || spells(s, from, to, "Option") {
        Some(Token::Alt)
    } else if spells(s, from, to, "Shift") {
        Some(Token::Shift)
    } else if spells(s, from, to, "Cmd") || spells(s, from, to, "Command") || spells(
        s,
        from,
        to,
        "Meta",
    ) {
        Some(Token::Meta)
    } else if spells(s, from, to, "Space") {
        Some(Token::Key(KeyCode::Space))
    } else if spells(s, from, to, "Enter") {
        Some(Token::Key(KeyCode::Enter))
    } else if spells(s, from, to, "Tab") {
        Some(Token::Key(KeyCode::Tab))
    } else if spells(s, from, to, "Escape") {
        Some(Token::Key(KeyCode::Escape))
    } else if spells(s, from, to, "F1") {
        Some(Token::Key(KeyCode::F1))
    } else if spells(s, from, to, "F2") {
        Some(Token::Key(KeyCode::F2))
    } else if spells(s, from, to, "F3") {
        Some(Token::Key(KeyCode::F3))
    } else if spells(s, from, to, "F4") {
        Some(Token::Key(KeyCode::F4))
    } else if spells(s, from, to, "F5") {
        Some(Token::Key(KeyCode::F5))
    } else if spells(s, from, to, "F6") {
        Some(Token::Key(KeyCode::F6))
    } else if spells(s, from, to, "F7") {
        Some(Token::Key(KeyCode::F7))
    } else if spells(s, from, to, "F8") {
        Some(Token::Key(KeyCode::F8))
    } else if spells(s, from, to, "F9") {
        Some(Token::Key(KeyCode::F9))
    } else if spells(s, from, to, "F10") {
        Some(Token::Key(KeyCode::F10))
    } else if spells(s, from, to, "F11") {
        Some(Token::Key(KeyCode::F11))
    } else if spells(s, from, to, "F12") {
        Some(Token::Key(KeyCode::F12))
    } else if spells(s, from, to, "A") {
        Some(Token::Key(KeyCode::KeyA))
    } else if spells(s, from, to, "B") {
        Some(Token::Key(KeyCode::KeyB))
    } else if spells(s, from, to, "C") {
        Some(Token::Key(KeyCode::KeyC))
    } else if spells(s, from, to, "V") {
        Some(Token::Key(KeyCode::KeyV))
    } else {
        None
    }
}

/// Parses the spelling of a hotkey. The names between the `+` signs are
/// trimmed and looked up one by one from the left. Modifiers add up, of
/// several keys the last one counts, the first unknown name is reported,
/// and so is a spelling that names no key.
pub fn parse_shortcut(shortcut_str: &str) -> (r: Result<Shortcut, ShortcutError>)
    ensures
        parsed_view(r) == parsed(shortcut_str@),
{
    let chars = chars_of(shortcut_str);
    let s = chars.as_slice();
    let len: usize = s.len();
    let mut modifiers = Modifiers { control: false, alt: false, shift: false, meta: false };
    let mut key: Option<KeyCode> = None;
    let mut pos: usize = 0;
    assert(s@.skip(0) =~= s@);
    loop
        invariant
            s@ == shortcut_str@,
            pos <= len == s@.len(),
            parsed(shortcut_str@) == parse_from(s@.skip(pos as int), modifiers, key),
        decreases len - pos,
    {
        let end = find_plus(s, pos);
        let (from, to) = trim_bounds(s, pos, end);
        proof {
            assert(s@.skip(pos as int).take(end - pos) =~= s@.subrange(pos as int, end as int));
            assert(s@.skip(pos as int).len() == len - pos);
        }
        match read_token(s, from, to) {
            None => {
                let name = String::from_str(shortcut_str.substring_char(from, to));
                return Err(ShortcutError::UnknownKey(name));
            },
            Some(token) => {
                match token {
                    Token::Control => {
                        modifiers.control = true;
                    },
                    Token::Alt => {
                        modifiers.alt = true;
                    },
                    Token::Shift => {
                        modifiers.shift = true;
                    },
                    Token::Meta => {
                        modifiers.meta = true;
                    },
                    Token::Key(code) => {
                        key = Some(code);
                    },
                }
                if end >= len {
                    return match key {
                        Some(code) => Ok(Shortcut { modifiers, key: code }),
                        None => Err(ShortcutError::NoKeyCode),
                    };
                }
                proof {
                    assert(s@.skip(pos as int).skip(end - pos + 1) =~= s@.skip(end + 1));
                }
                pos = end + 1;
            },
        }
    }
}

} // verus!
