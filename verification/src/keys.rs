//! Keys of a keyboard and the display strings that stand for them.
//!
//! A printable key gives one character of the US layout, chosen by the
//! shift state. A named key (enter, the arrows, the modifiers, the function
//! keys) gives its symbol or name. Any other key gives a question mark, an
//! unknown one followed by its code.

use crate::state::is_function_key;
use crate::state::is_ignored_key;
use crate::state::is_special_key;
use crate::text::decimal;
use crate::text::decimal_string;
use vstd::prelude::*;
use vstd::string::*;

verus! {

/// A key of the keyboard, by its position on a standard QWERTY board.
#[derive(Debug, Clone, Copy, PartialEq, Eq, Structural)]
pub enum Key {
    /// The alt key (option on a Mac).
    Alt,
    AltGr,
    Backspace,
    CapsLock,
    ControlLeft,
    ControlRight,
    Delete,
    DownArrow,
    End,
    Escape,
    F1,
    F10,
    F11,
    F12,
    F2,
    F3,
    F4,
    F5,
    F6,
    F7,
    F8,
    F9,
    Home,
    LeftArrow,
    /// The left command, windows or super key.
    MetaLeft,
    /// The right command, windows or super key.
    MetaRight,
    PageDown,
    PageUp,
    Return,
    RightArrow,
    ShiftLeft,
    ShiftRight,
    Space,
    Tab,
    UpArrow,
    PrintScreen,
    ScrollLock,
    Pause,
    NumLock,
    BackQuote,
    Num1,
    Num2,
    Num3,
    Num4,
    Num5,
    Num6,
    Num7,
    Num8,
    Num9,
    Num0,
    Minus,
    Equal,
    KeyQ,
    KeyW,
    KeyE,
    KeyR,
    KeyT,
    KeyY,
    KeyU,
    KeyI,
    KeyO,
    KeyP,
    LeftBracket,
    RightBracket,
    KeyA,
    KeyS,
    KeyD,
    KeyF,
    KeyG,
    KeyH,
    KeyJ,
    KeyK,
    KeyL,
    SemiColon,
    Quote,
    BackSlash,
    IntlBackslash,
    KeyZ,
    KeyX,
    KeyC,
    KeyV,
    KeyB,
    KeyN,
    KeyM,
    Comma,
    Dot,
    Slash,
    Insert,
    KpReturn,
    KpMinus,
    KpPlus,
    KpMultiply,
    KpDivide,
    Kp0,
    Kp1,
    Kp2,
    Kp3,
    Kp4,
    Kp5,
    Kp6,
    Kp7,
    Kp8,
    Kp9,
    KpDelete,
    Function,
    /// A key known only by its code.
    Unknown(u32),
}

/// The US keyboard layout: the character that a printable key gives without
/// shift, and the one it gives with shift. `None` for every other key.
pub open spec fn layout(key: Key) -> Option<(char, char)> {
    match key {
        Key::KeyA => Some(('a', 'A')),
        Key::KeyB => Some(('b', 'B')),
        Key::KeyC => Some(('c', 'C')),
        Key::KeyD => Some(('d', 'D')),
        Key::KeyE => Some(('e', 'E')),
        Key::KeyF => Some(('f', 'F')),
        Key::KeyG => Some(('g', 'G')),
        Key::KeyH => Some(('h', 'H')),
        Key::KeyI => Some(('i', 'I')),
        Key::KeyJ => Some(('j', 'J')),
        Key::KeyK => Some(('k', 'K')),
        Key::KeyL => Some(('l', 'L')),
        Key::KeyM => Some(('m', 'M')),
        Key::KeyN => Some(('n', 'N')),
        Key::KeyO => Some(('o', 'O')),
        Key::KeyP => Some(('p', 'P')),
        Key::KeyQ => Some(('q', 'Q')),
        Key::KeyR => Some(('r', 'R')),
        Key::KeyS => Some(('s', 'S')),
        Key::KeyT => Some(('t', 'T')),
        Key::KeyU => Some(('u', 'U')),
        Key::KeyV => Some(('v', 'V')),
        Key::KeyW => Some(('w', 'W')),
        Key::KeyX => Some(('x', 'X')),
        Key::KeyY => Some(('y', 'Y')),
        Key::KeyZ => Some(('z', 'Z')),
        Key::Num0 => Some(('0', ')')),
        Key::Num1 => Some(('1', '!')),
        Key::Num2 => Some(('2', '@')),
        Key::Num3 => Some(('3', '#')),
        Key::Num4 => Some(('4', '$')),
        Key::Num5 => Some(('5', '%')),
        Key::Num6 => Some(('6', '^')),
        Key::Num7 => Some(('7', '&')),
        Key::Num8 => Some(('8', '*')),
        Key::Num9 => Some(('9', '(')),
        Key::Comma => Some((',', '<')),
        Key::Dot => Some(('.', '>')),
        Key::Slash => Some(('/', '?')),
        Key::SemiColon => Some((';', ':')),
        Key::Quote => Some(('\'', '"')),
        Key::LeftBracket => Some(('[', '{')),
        Key::RightBracket => Some((']', '}')),
        Key::BackSlash => Some(('\\', '|')),
        Key::Minus => Some(('-', '_')),
        Key::Equal => Some(('=', '+')),
        Key::BackQuote => Some(('`', '~')),
        _ => None,
    }
}

/// The symbol or name of a key that is not printable: the symbols of
/// space, enter, tab, backspace, escape, delete, the arrows and the
/// modifiers, and the names of the function keys. `None` for every other
/// key.
pub open spec fn key_name(key: Key) -> Option<Seq<char>> {
    match key {
        Key::Space => Some("␣"@),
        Key::Return => Some("⏎"@),
        Key::Tab => Some("⇥"@),
        Key::Backspace => Some("⌫"@),
        Key::Escape => Some("⎋"@),
        Key::Delete => Some("⌦"@),
        Key::UpArrow => Some("↑"@),
        Key::DownArrow => Some("↓"@),
        Key::LeftArrow => Some("←"@),
        Key::RightArrow => Some("→"@),
        Key::ShiftLeft => Some("⇧"@),
        Key::ShiftRight => Some("⇧"@),
        Key::ControlLeft => Some("⌃"@),
        Key::ControlRight => Some("⌃"@),
        Key::Alt => Some("⌥"@),
        Key::AltGr => Some("⌥"@),
        Key::MetaLeft => Some("⌘"@),
        Key::MetaRight => Some("⌘"@),
        Key::F1 => Some("F1"@),
        Key::F2 => Some("F2"@),
        Key::F3 => Some("F3"@),
        Key::F4 => Some("F4"@),
        Key::F5 => Some("F5"@),
        Key::F6 => Some("F6"@),
        Key::F7 => Some("F7"@),
        Key::F8 => Some("F8"@),
        Key::F9 => Some("F9"@),
        Key::F10 => Some("F10"@),
        Key::F11 => Some("F11"@),
        Key::F12 => Some("F12"@),
        _ => None,
    }
}

/// Whether `key` is one of the modifiers: shift, control, alt or meta.
pub open spec fn is_modifier(key: Key) -> bool {
    is_shift(key) || key is ControlLeft || key is ControlRight || key is Alt || key is AltGr
        || key is MetaLeft || key is MetaRight
}

/// Whether `key` is one of the two shift keys.
pub open spec fn is_shift(key: Key) -> bool {
    key is ShiftLeft || key is ShiftRight
}

/// The display string of `key` under the shift state `shifted`.
pub open spec fn key_text(key: Key, shifted: bool) -> Seq<char> {
    match layout(key) {
        Some((plain, with_shift)) => seq![if shifted {
            with_shift
        } else {
            plain
        }],
        None => match key_name(key) {
            Some(name) => name,
            None => match key {
                Key::Unknown(code) => seq!['?'] + decimal(code as nat),
                _ => seq!['?'],
            },
        },
    }
}

/// Whether `key` is one of the letter keys.
pub open spec fn is_letter_key(key: Key) -> bool {
    match key {
        Key::KeyA | Key::KeyB | Key::KeyC | Key::KeyD | Key::KeyE | Key::KeyF | Key::KeyG
        | Key::KeyH | Key::KeyI | Key::KeyJ | Key::KeyK | Key::KeyL | Key::KeyM | Key::KeyN
        | Key::KeyO | Key::KeyP | Key::KeyQ | Key::KeyR | Key::KeyS | Key::KeyT | Key::KeyU
        | Key::KeyV | Key::KeyW | Key::KeyX | Key::KeyY | Key::KeyZ => true,
        _ => false,
    }
}

/// Whether `key` is one of the digit keys of the top row.
pub open spec fn is_digit_key(key: Key) -> bool {
    match key {
        Key::Num0 | Key::Num1 | Key::Num2 | Key::Num3 | Key::Num4 | Key::Num5 | Key::Num6
        | Key::Num7 | Key::Num8 | Key::Num9 => true,
        _ => false,
    }
}

/// Whether `key` is one of the punctuation keys.
pub open spec fn is_punctuation_key(key: Key) -> bool {
    match key {
        Key::Comma | Key::Dot | Key::Slash | Key::SemiColon | Key::Quote | Key::LeftBracket
        | Key::RightBracket | Key::BackSlash | Key::Minus | Key::Equal | Key::BackQuote => true,
        _ => false,
    }
}

/// The display string of a letter key.
fn letter_label(key: Key, shifted: bool) -> (label: Option<&'static str>)
    ensures
        label is Some <==> is_letter_key(key),
        label matches Some(s) ==> s@ == key_text(key, shifted),
{
    proof {
        reveal_strlit("a");
        reveal_strlit("A");
        reveal_strlit("b");
        reveal_strlit("B");
        reveal_strlit("c");
        reveal_strlit("C");
        reveal_strlit("d");
        reveal_strlit("D");
        reveal_strlit("e");
        reveal_strlit("E");
        reveal_strlit("f");
        reveal_strlit("F");
        reveal_strlit("g");
        reveal_strlit("G");
        reveal_strlit("h");
        reveal_strlit("H");
        reveal_strlit("i");
        reveal_strlit("I");
        reveal_strlit("j");
        reveal_strlit("J");
        reveal_strlit("k");
        reveal_strlit("K");
        reveal_strlit("l");
        reveal_strlit("L");
        reveal_strlit("m");
        reveal_strlit("M");
        reveal_strlit("n");
        reveal_strlit("N");
        reveal_strlit("o");
        reveal_strlit("O");
        reveal_strlit("p");
        reveal_strlit("P");
        reveal_strlit("q");
        reveal_strlit("Q");
        reveal_strlit("r");
        reveal_strlit("R");
        reveal_strlit("s");
        reveal_strlit("S");
        reveal_strlit("t");
        reveal_strlit("T");
        reveal_strlit("u");
        reveal_strlit("U");
        reveal_strlit("v");
        reveal_strlit("V");
        reveal_strlit("w");
        reveal_strlit("W");
        reveal_strlit("x");
        reveal_strlit("X");
        reveal_strlit("y");
        reveal_strlit("Y");
        reveal_strlit("z");
        reveal_strlit("Z");
    }
    let label: Option<&'static str> = match key {
        Key::KeyA => Some(if shifted { "A" } else { "a" }),
        Key::KeyB => Some(if shifted { "B" } else { "b" }),
        Key::KeyC => Some(if shifted { "C" } else { "c" }),
        Key::KeyD => Some(if shifted { "D" } else { "d" }),
        Key::KeyE => Some(if shifted { "E" } else { "e" }),
        Key::KeyF => Some(if shifted { "F" } else { "f" }),
        Key::KeyG => Some(if shifted { "G" } else { "g" }),
        Key::KeyH => Some(if shifted { "H" } else { "h" }),
        Key::KeyI => Some(if shifted { "I" } else { "i" }),
        Key::KeyJ => Some(if shifted { "J" } else { "j" }),
        Key::KeyK => Some(if shifted { "K" } else { "k" }),
        Key::KeyL => Some(if shifted { "L" } else { "l" }),
        Key::KeyM => Some(if shifted { "M" } else { "m" }),
        Key::KeyN => Some(if shifted { "N" } else { "n" }),
        Key::KeyO => Some(if shifted { "O" } else { "o" }),
        Key::KeyP => Some(if shifted { "P" } else { "p" }),
        Key::KeyQ => Some(if shifted { "Q" } else { "q" }),
        Key::KeyR => Some(if shifted { "R" } else { "r" }),
        Key::KeyS => Some(if shifted { "S" } else { "s" }),
        Key::KeyT => Some(if shifted { "T" } else { "t" }),
        Key::KeyU => Some(if shifted { "U" } else { "u" }),
        Key::KeyV => Some(if shifted { "V" } else { "v" }),
        Key::KeyW => Some(if shifted { "W" } else { "w" }),
        Key::KeyX => Some(if shifted { "X" } else { "x" }),
        Key::KeyY => Some(if shifted { "Y" } else { "y" }),
        Key::KeyZ => Some(if shifted { "Z" } else { "z" }),
        _ => None,
    };
    assert(label matches Some(s) ==> s@ =~= key_text(key, shifted));
    label
}

/// The display string of a digit key.
fn digit_label(key: Key, shifted: bool) -> (label: Option<&'static str>)
    ensures
        label is Some <==> is_digit_key(key),
        label matches Some(s) ==> s@ == key_text(key, shifted),
{
    proof {
        reveal_strlit("0");
        reveal_strlit(")");
        reveal_strlit("1");
        reveal_strlit("!");
        reveal_strlit("2");
        reveal_strlit("@");
        reveal_strlit("3");
        reveal_strlit("#");
        reveal_strlit("4");
        reveal_strlit("$");
        reveal_strlit("5");
        reveal_strlit("%");
        reveal_strlit("6");
        reveal_strlit("^");
        reveal_strlit("7");
        reveal_strlit("&");
        reveal_strlit("8");
        reveal_strlit("*");
        reveal_strlit("9");
        reveal_strlit("(");
    }
    let label: Option<&'static str> = match key {
        Key::Num0 => Some(if shifted { ")" } else { "0" }),
        Key::Num1 => Some(if shifted { "!" } else { "1" }),
        Key::Num2 => Some(if shifted { "@" } else { "2" }),
        Key::Num3 => Some(if shifted { "#" } else { "3" }),
        Key::Num4 => Some(if shifted { "$" } else { "4" }),
        Key::Num5 => Some(if shifted { "%" } else { "5" }),
        Key::Num6 => Some(if shifted { "^" } else { "6" }),
        Key::Num7 => Some(if shifted { "&" } else { "7" }),
        Key::Num8 => Some(if shifted { "*" } else { "8" }),
        Key::Num9 => Some(if shifted { "(" } else { "9" }),
        _ => None,
    };
    assert(label matches Some(s) ==> s@ =~= key_text(key, shifted));
    label
}

/// The display string of a punctuation key.
fn punctuation_label(key: Key, shifted: bool) -> (label: Option<&'static str>)
    ensures
        label is Some <==> is_punctuation_key(key),
        label matches Some(s) ==> s@ == key_text(key, shifted),
{
    proof {
        reveal_strlit(",");
        reveal_strlit("<");
        reveal_strlit(".");
        reveal_strlit(">");
        reveal_strlit("/");
        reveal_strlit("?");
        reveal_strlit(";");
        reveal_strlit(":");
        reveal_strlit("'");
        reveal_strlit("\"");
        reveal_strlit("[");
        reveal_strlit("{");
        reveal_strlit("]");
        reveal_strlit("}");
        reveal_strlit("\\");
        reveal_strlit("|");
        reveal_strlit("-");
        reveal_strlit("_");
        reveal_strlit("=");
        reveal_strlit("+");
        reveal_strlit("`");
        reveal_strlit("~");
    }
    let label: Option<&'static str> = match key {
        Key::Comma => Some(if shifted { "<" } else { "," }),
        Key::Dot => Some(if shifted { ">" } else { "." }),
        Key::Slash => Some(if shifted { "?" } else { "/" }),
        Key::SemiColon => Some(if shifted { ":" } else { ";" }),
        Key::Quote => Some(if shifted { "\"" } else { "'" }),
        Key::LeftBracket => Some(if shifted { "{" } else { "[" }),
        Key::RightBracket => Some(if shifted { "}" } else { "]" }),
        Key::BackSlash => Some(if shifted { "|" } else { "\\" }),
        Key::Minus => Some(if shifted { "_" } else { "-" }),
        Key::Equal => Some(if shifted { "+" } else { "=" }),
        Key::BackQuote => Some(if shifted { "~" } else { "`" }),
        _ => None,
    };
    assert(label matches Some(s) ==> s@ =~= key_text(key, shifted));
    label
}

/// The display string of a key that has a symbol or a name.
fn name_label(key: Key) -> (label: Option<&'static str>)
    ensures
        label is Some <==> key_name(key) is Some,
        label matches Some(s) ==> Some(s@) == key_name(key),
{
    match key {
        Key::Space => Some("␣"),
        Key::Return => Some("⏎"),
        Key::Tab => Some("⇥"),
        Key::Backspace => Some("⌫"),
        Key::Escape => Some("⎋"),
        Key::Delete => Some("⌦"),
        Key::UpArrow => Some("↑"),
        Key::DownArrow => Some("↓"),
        Key::LeftArrow => Some("←"),
        Key::RightArrow => Some("→"),
        Key::ShiftLeft => Some("⇧"),
        Key::ShiftRight => Some("⇧"),
        Key::ControlLeft => Some("⌃"),
        Key::ControlRight => Some("⌃"),
        Key::Alt => Some("⌥"),
        Key::AltGr => Some("⌥"),
        Key::MetaLeft => Some("⌘"),
        Key::MetaRight => Some("⌘"),
        Key::F1 => Some("F1"),
        Key::F2 => Some("F2"),
        Key::F3 => Some("F3"),
        Key::F4 => Some("F4"),
        Key::F5 => Some("F5"),
        Key::F6 => Some("F6"),
        Key::F7 => Some("F7"),
        Key::F8 => Some("F8"),
        Key::F9 => Some("F9"),
        Key::F10 => Some("F10"),
        Key::F11 => Some("F11"),
        Key::F12 => Some("F12"),
        _ => None,
    }
}

/// The display string of `key` under the shift state `shifted`.
pub fn key_to_string(key: Key, shifted: bool) -> (text: String)
    ensures
        text@ == key_text(key, shifted),
{
    if let Some(label) = letter_label(key, shifted) {
        return String::from_str(label);
    }
    if let Some(label) = digit_label(key, shifted) {
        return String::from_str(label);
    }
    if let Some(label) = punctuation_label(key, shifted) {
        return String::from_str(label);
    }
    if let Some(label) = name_label(key) {
        return String::from_str(label);
    }
    proof {
        reveal_strlit("?");
    }
    let mut text = String::from_str("?");
    assert(text@ =~= seq!['?']);
    if let Key::Unknown(code) = key {
        text.append(decimal_string(code as u64).as_str());
    }
    text
}

/// Whether `key` is one of the modifiers: shift, control, alt or meta.
pub fn is_modifier_key(key: Key) -> (b: bool)
    ensures
        b == is_modifier(key),
{
    match key {
        Key::ShiftLeft | Key::ShiftRight | Key::ControlLeft | Key::ControlRight | Key::Alt
        | Key::AltGr | Key::MetaLeft | Key::MetaRight => true,
        _ => false,
    }
}

/// Whether `key` is one of the two shift keys.
pub fn is_shift_key(key: Key) -> (b: bool)
    ensures
        b == is_shift(key),
{
    match key {
        Key::ShiftLeft | Key::ShiftRight => true,
        _ => false,
    }
}

/// The display string of a modifier is one that the controller ignores,
/// under either shift state, and no other key has such a display string.
pub proof fn lemma_modifiers_are_ignored(key: Key, shifted: bool)
    ensures
        is_modifier(key) <==> is_ignored_key(key_text(key, shifted)),
{
    reveal_key_strings();
    lemma_key_text_shape(key, shifted);
}

/// Space, enter, tab, backspace, escape, delete, the arrows and the
/// function keys have display strings that the controller takes as
/// special, under either shift state, and no other key has.
pub proof fn lemma_named_keys_are_special(key: Key, shifted: bool)
    ensures
        is_special_key(key_text(key, shifted)) <==> (key_name(key) is Some && !is_modifier(key)),
        is_function_key(key_text(key, shifted)) <==> (key is F1 || key is F2 || key is F3
            || key is F4 || key is F5 || key is F6 || key is F7 || key is F8 || key is F9
            || key is F10 || key is F11 || key is F12),
{
    reveal_key_strings();
    lemma_key_text_shape(key, shifted);
}

/// A printable key gives exactly one character, and a letter key gives
/// the capital of its letter under shift.
pub proof fn lemma_printable_keys_give_one_char(key: Key, shifted: bool)
    requires
        layout(key) is Some,
    ensures
        key_text(key, shifted).len() == 1,
        !is_special_key(key_text(key, shifted)),
        !is_ignored_key(key_text(key, shifted)),
        is_letter_key(key) ==> key_text(key, true)[0] as int == key_text(key, false)[0] as int - 32,
{
    lemma_modifiers_are_ignored(key, shifted);
    lemma_named_keys_are_special(key, shifted);
}

/// What the display strings of keys look like: one printable ASCII
/// character for a printable key, and for any other key a string that
/// starts with a character outside the layout or has more than one
/// character.
proof fn lemma_key_text_shape(key: Key, shifted: bool)
    ensures
        layout(key) is Some ==> key_text(key, shifted).len() == 1 && 33 <= key_text(
            key,
            shifted,
        )[0] as int <= 126,
        layout(key) is None && key_name(key) is None ==> key_text(key, shifted).len() >= 1
            && key_text(key, shifted)[0] == '?',
        key_text(key, shifted).len() >= 1,
{
    reveal_key_strings();
}

/// The characters of the symbols and names that keys have.
proof fn reveal_key_strings()
    ensures
        "␣"@.len() == 1 && "␣"@[0] == '␣',
        "⏎"@.len() == 1 && "⏎"@[0] == '⏎',
        "⇥"@.len() == 1 && "⇥"@[0] == '⇥',
        "⌫"@.len() == 1 && "⌫"@[0] == '⌫',
        "⎋"@.len() == 1 && "⎋"@[0] == '⎋',
        "⌦"@.len() == 1 && "⌦"@[0] == '⌦',
        "↑"@.len() == 1 && "↑"@[0] == '↑',
        "↓"@.len() == 1 && "↓"@[0] == '↓',
        "←"@.len() == 1 && "←"@[0] == '←',
        "→"@.len() == 1 && "→"@[0] == '→',
        "⇧"@.len() == 1 && "⇧"@[0] == '⇧',
        "⌃"@.len() == 1 && "⌃"@[0] == '⌃',
        "⌥"@.len() == 1 && "⌥"@[0] == '⌥',
        "⌘"@.len() == 1 && "⌘"@[0] == '⌘',
        "F1"@.len() == 2 && "F1"@[0] == 'F' && "F1"@[1] == '1',
        "F2"@.len() == 2 && "F2"@[0] == 'F' && "F2"@[1] == '2',
        "F3"@.len() == 2 && "F3"@[0] == 'F' && "F3"@[1] == '3',
        "F4"@.len() == 2 && "F4"@[0] == 'F' && "F4"@[1] == '4',
        "F5"@.len() == 2 && "F5"@[0] == 'F' && "F5"@[1] == '5',
        "F6"@.len() == 2 && "F6"@[0] == 'F' && "F6"@[1] == '6',
        "F7"@.len() == 2 && "F7"@[0] == 'F' && "F7"@[1] == '7',
        "F8"@.len() == 2 && "F8"@[0] == 'F' && "F8"@[1] == '8',
        "F9"@.len() == 2 && "F9"@[0] == 'F' && "F9"@[1] == '9',
        "F10"@.len() == 3 && "F10"@[0] == 'F' && "F10"@[1] == '1' && "F10"@[2] == '0',
        "F11"@.len() == 3 && "F11"@[0] == 'F' && "F11"@[1] == '1' && "F11"@[2] == '1',
        "F12"@.len() == 3 && "F12"@[0] == 'F' && "F12"@[1] == '1' && "F12"@[2] == '2',
{
    reveal_strlit("␣");
    reveal_strlit("⏎");
    reveal_strlit("⇥");
    reveal_strlit("⌫");
    reveal_strlit("⎋");
    reveal_strlit("⌦");
    reveal_strlit("↑");
    reveal_strlit("↓");
    reveal_strlit("←");
    reveal_strlit("→");
    reveal_strlit("⇧");
    reveal_strlit("⌃");
    reveal_strlit("⌥");
    reveal_strlit("⌘");
    reveal_strlit("F1");
    reveal_strlit("F2");
    reveal_strlit("F3");
    reveal_strlit("F4");
    reveal_strlit("F5");
    reveal_strlit("F6");
    reveal_strlit("F7");
    reveal_strlit("F8");
    reveal_strlit("F9");
    reveal_strlit("F10");
    reveal_strlit("F11");
    reveal_strlit("F12");
}

} // verus!
