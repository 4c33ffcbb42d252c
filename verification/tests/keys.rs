use tapwatch::capture::KeyCapture;
use tapwatch::capture::KeyEvent;
use tapwatch::keys::is_modifier_key;
use tapwatch::keys::is_shift_key;
use tapwatch::keys::key_to_string;
use tapwatch::keys::Key;
use tapwatch::state::App;
use tapwatch::text::contains_text;
use tapwatch::text::decimal_string;
use tapwatch::text::ends_with_char;
use tapwatch::text::same_text;

#[test]
fn letters_follow_the_shift_state() {
    let letters = [
        (Key::KeyA, 'a'),
        (Key::KeyB, 'b'),
        (Key::KeyC, 'c'),
        (Key::KeyD, 'd'),
        (Key::KeyE, 'e'),
        (Key::KeyF, 'f'),
        (Key::KeyG, 'g'),
        (Key::KeyH, 'h'),
        (Key::KeyI, 'i'),
        (Key::KeyJ, 'j'),
        (Key::KeyK, 'k'),
        (Key::KeyL, 'l'),
        (Key::KeyM, 'm'),
        (Key::KeyN, 'n'),
        (Key::KeyO, 'o'),
        (Key::KeyP, 'p'),
        (Key::KeyQ, 'q'),
        (Key::KeyR, 'r'),
        (Key::KeyS, 's'),
        (Key::KeyT, 't'),
        (Key::KeyU, 'u'),
        (Key::KeyV, 'v'),
        (Key::KeyW, 'w'),
        (Key::KeyX, 'x'),
        (Key::KeyY, 'y'),
        (Key::KeyZ, 'z'),
    ];
    for (key, letter) in letters {
        assert_eq!(key_to_string(key, false), letter.to_string());
        assert_eq!(key_to_string(key, true), letter.to_ascii_uppercase().to_string());
    }
}

#[test]
fn digits_and_punctuation_follow_the_us_layout() {
    let table = [
        (Key::Num0, "0", ")"),
        (Key::Num1, "1", "!"),
        (Key::Num2, "2", "@"),
        (Key::Num3, "3", "#"),
        (Key::Num4, "4", "$"),
        (Key::Num5, "5", "%"),
        (Key::Num6, "6", "^"),
        (Key::Num7, "7", "&"),
        (Key::Num8, "8", "*"),
        (Key::Num9, "9", "("),
        (Key::Comma, ",", "<"),
        (Key::Dot, ".", ">"),
        (Key::Slash, "/", "?"),
        (Key::SemiColon, ";", ":"),
        (Key::Quote, "'", "\""),
        (Key::LeftBracket, "[", "{"),
        (Key::RightBracket, "]", "}"),
        (Key::BackSlash, "\\", "|"),
        (Key::Minus, "-", "_"),
        (Key::Equal, "=", "+"),
        (Key::BackQuote, "`", "~"),
    ];
    for (key, plain, shifted) in table {
        assert_eq!(key_to_string(key, false), plain);
        assert_eq!(key_to_string(key, true), shifted);
    }
}

#[test]
fn named_keys_have_their_symbols() {
    let table = [
        (Key::Space, "␣"),
        (Key::Return, "⏎"),
        (Key::Tab, "⇥"),
        (Key::Backspace, "⌫"),
        (Key::Escape, "⎋"),
        (Key::Delete, "⌦"),
        (Key::UpArrow, "↑"),
        (Key::DownArrow, "↓"),
        (Key::LeftArrow, "←"),
        (Key::RightArrow, "→"),
        (Key::F1, "F1"),
        (Key::F2, "F2"),
        (Key::F3, "F3"),
        (Key::F4, "F4"),
        (Key::F5, "F5"),
        (Key::F6, "F6"),
        (Key::F7, "F7"),
        (Key::F8, "F8"),
        (Key::F9, "F9"),
        (Key::F10, "F10"),
        (Key::F11, "F11"),
        (Key::F12, "F12"),
    ];
    for (key, symbol) in table {
        assert_eq!(key_to_string(key, false), symbol);
        assert_eq!(key_to_string(key, true), symbol);
        assert!(App::is_special_key(symbol));
        assert!(!App::is_ignored_key(symbol));
        assert!(!is_modifier_key(key));
    }
}

#[test]
fn modifiers_have_symbols_that_the_controller_ignores() {
    let table = [
        (Key::ShiftLeft, "⇧"),
        (Key::ShiftRight, "⇧"),
        (Key::ControlLeft, "⌃"),
        (Key::ControlRight, "⌃"),
        (Key::Alt, "⌥"),
        (Key::AltGr, "⌥"),
        (Key::MetaLeft, "⌘"),
        (Key::MetaRight, "⌘"),
    ];
    for (key, symbol) in table {
        assert_eq!(key_to_string(key, false), symbol);
        assert_eq!(key_to_string(key, true), symbol);
        assert!(is_modifier_key(key));
        assert!(App::is_ignored_key(symbol));
    }
    assert!(is_shift_key(Key::ShiftLeft));
    assert!(is_shift_key(Key::ShiftRight));
    assert!(!is_shift_key(Key::ControlLeft));
    assert!(!is_shift_key(Key::KeyA));
    assert!(!is_modifier_key(Key::CapsLock));
}

#[test]
fn other_keys_are_question_marks() {
    for key in [Key::CapsLock, Key::Home, Key::End, Key::PageUp, Key::Kp5, Key::Insert, Key::Function, Key::IntlBackslash] {
        assert_eq!(key_to_string(key, false), "?");
        assert_eq!(key_to_string(key, true), "?");
    }
    assert_eq!(key_to_string(Key::Unknown(0), false), "?0");
    assert_eq!(key_to_string(Key::Unknown(179), true), "?179");
    assert_eq!(key_to_string(Key::Unknown(u32::MAX), false), "?4294967295");
}

#[test]
fn decimal_numerals() {
    assert_eq!(decimal_string(0), "0");
    assert_eq!(decimal_string(7), "7");
    assert_eq!(decimal_string(10), "10");
    assert_eq!(decimal_string(340), "340");
    assert_eq!(decimal_string(1_000_000), "1000000");
    assert_eq!(decimal_string(u64::MAX), "18446744073709551615");
    for n in [1u64, 9, 19, 99, 100, 101, 65_535, 65_536, 123_456_789] {
        assert_eq!(decimal_string(n), n.to_string());
    }
}

#[test]
fn text_comparison_and_search() {
    assert!(same_text("", ""));
    assert!(same_text("⏎", "⏎"));
    assert!(!same_text("⏎", "⇥"));
    assert!(!same_text("F1", "F10"));
    assert!(!same_text("F10", "F1"));
    assert!(contains_text("xterm-kitty", "kitty"));
    assert!(contains_text("kitty", "kitty"));
    assert!(contains_text("abc", ""));
    assert!(contains_text("", ""));
    assert!(!contains_text("", "a"));
    assert!(!contains_text("kitt", "kitty"));
    assert!(!contains_text("kit ty", "kitty"));
    assert!(contains_text("aab", "ab"));
    assert!(contains_text("ééxé", "xé"));
    assert!(ends_with_char("\u{1b}[?62;4c", 'c'));
    assert!(!ends_with_char("\u{1b}[?62;4", 'c'));
    assert!(!ends_with_char("", 'c'));
}

#[test]
fn capture_tracks_shift_and_emits_display_strings() {
    let mut capture = KeyCapture::new();
    assert!(!capture.shift_held);
    assert_eq!(capture.on_event(KeyEvent::Press(Key::KeyH)), Some(String::from("h")));
    assert_eq!(capture.on_event(KeyEvent::Release(Key::KeyH)), None);
    assert_eq!(capture.on_event(KeyEvent::Press(Key::ShiftLeft)), None);
    assert!(capture.shift_held);
    assert_eq!(capture.on_event(KeyEvent::Press(Key::KeyI)), Some(String::from("I")));
    assert_eq!(capture.on_event(KeyEvent::Press(Key::Num1)), Some(String::from("!")));
    assert_eq!(capture.on_event(KeyEvent::Release(Key::KeyI)), None);
    assert!(capture.shift_held);
    assert_eq!(capture.on_event(KeyEvent::Release(Key::ShiftLeft)), None);
    assert!(!capture.shift_held);
    assert_eq!(capture.on_event(KeyEvent::Press(Key::Num1)), Some(String::from("1")));
}

#[test]
fn capture_emits_nothing_for_modifiers() {
    let mut capture = KeyCapture::new();
    for key in [Key::ControlLeft, Key::ControlRight, Key::Alt, Key::AltGr, Key::MetaLeft, Key::MetaRight] {
        assert_eq!(capture.on_event(KeyEvent::Press(key)), None);
        assert!(!capture.shift_held);
        assert_eq!(capture.on_event(KeyEvent::Release(key)), None);
        assert!(!capture.shift_held);
    }
    assert_eq!(capture.on_event(KeyEvent::Press(Key::ShiftRight)), None);
    assert!(capture.shift_held);
    assert_eq!(capture.on_event(KeyEvent::Press(Key::ControlLeft)), None);
    assert!(capture.shift_held);
    assert_eq!(capture.on_event(KeyEvent::Release(Key::ShiftLeft)), None);
    assert!(!capture.shift_held);
}

#[test]
fn captured_space_and_enter_are_special_for_the_controller() {
    let mut capture = KeyCapture::new();
    let mut app = App::new_at(0);
    for key in [Key::KeyH, Key::KeyI] {
        let text = capture.on_event(KeyEvent::Press(key)).unwrap();
        app.on_key_at(text, 1);
    }
    assert_eq!(app.typed_text, "hi");
    let space = capture.on_event(KeyEvent::Press(Key::Space)).unwrap();
    app.on_key_at(space, 2);
    assert_eq!(app.typed_text, "Space");
    assert!(app.is_special_key_text);
    let enter = capture.on_event(KeyEvent::Press(Key::Return)).unwrap();
    app.on_key_at(enter, 3);
    assert_eq!(app.typed_text, "Enter");
    let unknown = capture.on_event(KeyEvent::Press(Key::Unknown(12))).unwrap();
    app.on_key_at(unknown, 4);
    assert_eq!(app.typed_text, "?12");
    assert!(!app.is_special_key_text);
    assert_eq!(app.new_char_count, 3);
}
