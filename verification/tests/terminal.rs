use tapwatch::iterm2::is_iterm2;
use tapwatch::terminal::check_env_hints;
use tapwatch::terminal::fit_and_move;
use tapwatch::terminal::forced_setting;
use tapwatch::terminal::image_at_position_frame;
use tapwatch::terminal::display_image_at_position;
use tapwatch::terminal::display_image_region;
use tapwatch::terminal::inline_image_frame;
use tapwatch::terminal::display_image_inline;
use tapwatch::terminal::query_graphics_support;
use tapwatch::terminal::response_complete;
use tapwatch::terminal::setting_enables;
use tapwatch::terminal::supports_inline_images;
use tapwatch::terminal::term_hints_graphics;
use tapwatch::terminal::Direction;
use tapwatch::terminal::EnvHints;
use tapwatch::terminal::GraphicsQuery;
use tapwatch::terminal::FIT_HEIGHT;
use tapwatch::terminal::FIT_WIDTH;
use tapwatch::terminal::MARGIN;

fn find_screen() -> &'static str {
    r#"
        use framework "AppKit"

        -- Get main screen height for coordinate conversion
        set mainScreen to current application's NSScreen's mainScreen()
        set mainFrame to mainScreen's frame()
        set mainScreenHeight to item 2 of item 2 of mainFrame

        -- Get current window bounds (in window/screen coordinates)
        tell application "iTerm2"
            tell current window
                set {wx, wy, wx2, wy2} to bounds
            end tell
        end tell

        -- Calculate window center in window coords
        set winCenterX to (wx + wx2) / 2
        set winCenterY to (wy + wy2) / 2

        -- Convert window center Y to Cocoa coords for screen lookup
        set winCenterYCocoa to mainScreenHeight - winCenterY

        -- Find the screen containing this point
        set allScreens to current application's NSScreen's screens()
        set screenCount to count of allScreens

        set targetFrame to missing value
        set targetVisFrame to missing value

        repeat with i from 1 to screenCount
            set scr to item i of allScreens
            set scrFrame to scr's frame()
            set scrX to item 1 of item 1 of scrFrame
            set scrY to item 2 of item 1 of scrFrame
            set scrW to item 1 of item 2 of scrFrame
            set scrH to item 2 of item 2 of scrFrame

            -- Check if window center is within this screen (using Cocoa coords)
            if winCenterX >= scrX and winCenterX < (scrX + scrW) and winCenterYCocoa >= scrY and winCenterYCocoa < (scrY + scrH) then
                set targetFrame to scrFrame
                set targetVisFrame to scr's visibleFrame()
                exit repeat
            end if
        end repeat

        -- Fallback to main screen if not found
        if targetFrame is missing value then
            set targetFrame to mainFrame
            set targetVisFrame to mainScreen's visibleFrame()
        end if
    "#
}

#[test]
fn placement_script_for_top() {
    let expected = format!(
        r#"{find_screen}

            -- Get visible frame in Cocoa coords
            set visOriginY to item 2 of item 1 of targetVisFrame
            set visHeight to item 2 of item 2 of targetVisFrame

            -- Top of visible area in Cocoa coords = visOriginY + visHeight
            -- Convert to window coords: mainScreenHeight - (visOriginY + visHeight)
            set topInWindowCoords to mainScreenHeight - visOriginY - visHeight

            tell application "iTerm2"
                tell current window
                    set {{x, y, x2, y2}} to bounds
                    -- Keep x position, move to top of current screen
                    set bounds to {{x, topInWindowCoords + {m}, x + {w}, topInWindowCoords + {m} + {h}}}
                end tell
            end tell"#,
        find_screen = find_screen(),
        m = MARGIN,
        w = FIT_WIDTH,
        h = FIT_HEIGHT
    );
    assert_eq!(fit_and_move(Direction::Top), expected);
}

#[test]
fn placement_script_for_bottom() {
    let expected = format!(
        r#"{find_screen}

            -- Get visible frame in Cocoa coords
            set visOriginY to item 2 of item 1 of targetVisFrame

            -- Bottom of visible area in Cocoa coords = visOriginY
            -- Convert to window coords: mainScreenHeight - visOriginY
            set bottomInWindowCoords to mainScreenHeight - visOriginY

            tell application "iTerm2"
                tell current window
                    set {{x, y, x2, y2}} to bounds
                    -- Keep x position, move to bottom of current screen
                    set bounds to {{x, bottomInWindowCoords - {h} - {m}, x + {w}, bottomInWindowCoords - {m}}}
                end tell
            end tell"#,
        find_screen = find_screen(),
        m = MARGIN,
        w = FIT_WIDTH,
        h = FIT_HEIGHT
    );
    assert_eq!(fit_and_move(Direction::Bottom), expected);
}

#[test]
fn placement_script_for_left() {
    let expected = format!(
        r#"{find_screen}

            -- X coordinates are same in both systems
            set visOriginX to item 1 of item 1 of targetVisFrame

            tell application "iTerm2"
                tell current window
                    set {{x, y, x2, y2}} to bounds
                    -- Move to left edge, keep y position
                    set bounds to {{visOriginX + {m}, y, visOriginX + {m} + {w}, y + {h}}}
                end tell
            end tell"#,
        find_screen = find_screen(),
        m = MARGIN,
        w = FIT_WIDTH,
        h = FIT_HEIGHT
    );
    assert_eq!(fit_and_move(Direction::Left), expected);
}

#[test]
fn placement_script_for_right() {
    let expected = format!(
        r#"{find_screen}

            -- X coordinates are same in both systems
            set visOriginX to item 1 of item 1 of targetVisFrame
            set visWidth to item 1 of item 2 of targetVisFrame
            set screenRight to visOriginX + visWidth

            tell application "iTerm2"
                tell current window
                    set {{x, y, x2, y2}} to bounds
                    -- Move to right edge, keep y position
                    set bounds to {{screenRight - {w} - {m}, y, screenRight - {m}, y + {h}}}
                end tell
            end tell"#,
        find_screen = find_screen(),
        m = MARGIN,
        w = FIT_WIDTH,
        h = FIT_HEIGHT
    );
    assert_eq!(fit_and_move(Direction::Right), expected);
}

#[test]
fn placement_keeps_the_footprint_and_the_margin() {
    assert_eq!((FIT_WIDTH, FIT_HEIGHT, MARGIN), (400, 340, 20));
    let top = fit_and_move(Direction::Top);
    assert!(top.ends_with(
        "set bounds to {x, topInWindowCoords + 20, x + 400, topInWindowCoords + 20 + 340}\n                end tell\n            end tell"
    ));
    let bottom = fit_and_move(Direction::Bottom);
    assert!(bottom.contains(
        "set bounds to {x, bottomInWindowCoords - 340 - 20, x + 400, bottomInWindowCoords - 20}"
    ));
    let left = fit_and_move(Direction::Left);
    assert!(left.contains("set bounds to {visOriginX + 20, y, visOriginX + 20 + 400, y + 340}"));
    let right = fit_and_move(Direction::Right);
    assert!(right.contains("set bounds to {screenRight - 400 - 20, y, screenRight - 20, y + 340}"));
    for script in [top, bottom, left, right] {
        assert!(script.starts_with(find_screen()));
        assert_eq!(script.matches("set bounds to").count(), 1);
    }
}

#[test]
fn inline_image_with_all_arguments() {
    assert_eq!(
        display_image_inline(b"hello", Some(20), Some(10), true),
        "\x1b]1337;File=size=5;inline=1;width=20;height=10;preserveAspectRatio=1:aGVsbG8=\x07"
    );
}

#[test]
fn inline_image_without_optional_arguments() {
    assert_eq!(
        display_image_inline(b"hello", None, None, false),
        "\x1b]1337;File=size=5;inline=1:aGVsbG8=\x07"
    );
    assert_eq!(
        display_image_inline(b"hi", Some(3), None, false),
        "\x1b]1337;File=size=2;inline=1;width=3:aGk=\x07"
    );
    assert_eq!(
        display_image_inline(b"hi", None, Some(4), true),
        "\x1b]1337;File=size=2;inline=1;height=4;preserveAspectRatio=1:aGk=\x07"
    );
}

#[test]
fn inline_image_of_nothing() {
    assert_eq!(display_image_inline(b"", None, None, false), "\x1b]1337;File=size=0;inline=1:\x07");
}

#[test]
fn base64_is_standard_with_padding() {
    let cases: [(&[u8], &str); 6] = [
        (b"f", "Zg=="),
        (b"fo", "Zm8="),
        (b"foo", "Zm9v"),
        (b"foob", "Zm9vYg=="),
        (b"\xfb\xff\xfe", "+//+"),
        (b"\x00\x00\x00\x00", "AAAAAA=="),
    ];
    for (data, encoded) in cases {
        assert_eq!(
            display_image_inline(data, None, None, false),
            format!("\x1b]1337;File=size={};inline=1:{}\x07", data.len(), encoded)
        );
    }
}

#[test]
fn frame_wraps_given_text() {
    assert_eq!(
        inline_image_frame(12, "QUJD", Some(1), Some(2), false),
        "\x1b]1337;File=size=12;inline=1;width=1;height=2:QUJD\x07"
    );
    assert_eq!(
        image_at_position_frame(3, "QUJD", 0, 0, None, None),
        "\x1b7\x1b[1;1H\x1b]1337;File=size=3;inline=1;preserveAspectRatio=1:QUJD\x07\x1b8"
    );
}

#[test]
fn image_at_position_saves_and_restores_the_cursor() {
    assert_eq!(
        display_image_at_position(b"hello", 4, 9, Some(20), Some(10)),
        "\x1b7\x1b[5;10H\x1b]1337;File=size=5;inline=1;width=20;height=10;preserveAspectRatio=1:aGVsbG8=\x07\x1b8"
    );
}

#[test]
fn image_at_the_last_row_and_column() {
    assert_eq!(
        display_image_at_position(b"hello", u16::MAX, u16::MAX, None, None),
        "\x1b7\x1b[65536;65536H\x1b]1337;File=size=5;inline=1;preserveAspectRatio=1:aGVsbG8=\x07\x1b8"
    );
}

#[test]
fn image_region_blanks_its_rows_first() {
    assert_eq!(
        display_image_region(b"hello", 2, 5, 3, 2, Some(3), Some(2)),
        "\x1b7\x1b[3;6H   \x1b[4;6H   \x1b[3;6H\x1b]1337;File=size=5;inline=1;width=3;height=2;preserveAspectRatio=1:aGVsbG8=\x07\x1b8"
    );
    assert_eq!(
        display_image_region(b"hello", 2, 5, 3, 0, None, None),
        "\x1b7\x1b[3;6H\x1b]1337;File=size=5;inline=1;preserveAspectRatio=1:aGVsbG8=\x07\x1b8"
    );
    assert_eq!(
        display_image_region(b"hello", 0, 0, 0, 1, None, None),
        "\x1b7\x1b[1;1H\x1b[1;1H\x1b]1337;File=size=5;inline=1;preserveAspectRatio=1:aGVsbG8=\x07\x1b8"
    );
}

fn no_hints() -> EnvHints {
    EnvHints { kitty_window: false, wezterm_pane: false, term: None }
}

#[test]
fn setting_forces_the_answer() {
    let yes = GraphicsQuery::Answered(String::from("\x1b[?62;4c"));
    for on in ["1", "true", "yes", "on", "TRUE", "Yes", "oN"] {
        assert!(supports_inline_images(Some(on), &GraphicsQuery::NotATerminal, &no_hints()), "{on}");
    }
    for off in ["0", "false", "no", "off", "", "2", "yes ", "enable"] {
        assert!(!supports_inline_images(Some(off), &yes, &no_hints()), "{off}");
    }
    assert!(setting_enables("on"));
    assert!(!setting_enables("ON"));
    assert!(!setting_enables("o"));
}

#[test]
fn setting_is_read_before_the_terminal_is_asked() {
    assert_eq!(forced_setting(None), None);
    assert_eq!(forced_setting(Some("On")), Some(true));
    assert_eq!(forced_setting(Some("1")), Some(true));
    assert_eq!(forced_setting(Some("0")), Some(false));
    assert_eq!(forced_setting(Some("")), Some(false));
}

#[test]
fn query_decides_without_a_setting() {
    let kitty = EnvHints { kitty_window: true, wezterm_pane: true, term: Some(String::from("xterm-kitty")) };
    assert!(!supports_inline_images(None, &GraphicsQuery::NotATerminal, &kitty));
    assert!(supports_inline_images(None, &GraphicsQuery::Answered(String::from("\x1b[?62;4;6c")), &no_hints()));
    assert!(supports_inline_images(None, &GraphicsQuery::Answered(String::from("\x1b[?1;2c")), &no_hints()));
    assert!(!supports_inline_images(None, &GraphicsQuery::Answered(String::new()), &kitty));
    assert!(!supports_inline_images(None, &GraphicsQuery::Answered(String::from("garbage")), &kitty));
}

#[test]
fn hints_decide_when_the_query_cannot_be_written() {
    assert!(!supports_inline_images(None, &GraphicsQuery::WriteFailed, &no_hints()));
    let kitty = EnvHints { kitty_window: true, wezterm_pane: false, term: None };
    assert!(supports_inline_images(None, &GraphicsQuery::WriteFailed, &kitty));
    let wezterm = EnvHints { kitty_window: false, wezterm_pane: true, term: None };
    assert!(supports_inline_images(None, &GraphicsQuery::WriteFailed, &wezterm));
    let ghostty = EnvHints { kitty_window: false, wezterm_pane: false, term: Some(String::from("XTERM-GHOSTTY")) };
    assert!(supports_inline_images(None, &GraphicsQuery::WriteFailed, &ghostty));
    let xterm = EnvHints { kitty_window: false, wezterm_pane: false, term: Some(String::from("xterm-256color")) };
    assert!(!supports_inline_images(None, &GraphicsQuery::WriteFailed, &xterm));
}

#[test]
fn environment_hints() {
    assert!(!check_env_hints(&no_hints()));
    assert!(check_env_hints(&EnvHints { kitty_window: true, wezterm_pane: false, term: None }));
    assert!(check_env_hints(&EnvHints { kitty_window: false, wezterm_pane: true, term: None }));
    assert!(check_env_hints(&EnvHints { kitty_window: false, wezterm_pane: false, term: Some(String::from("xterm-Kitty")) }));
    assert!(check_env_hints(&EnvHints { kitty_window: false, wezterm_pane: false, term: Some(String::from("ghostty")) }));
    assert!(!check_env_hints(&EnvHints { kitty_window: false, wezterm_pane: false, term: Some(String::from("screen")) }));
    assert!(term_hints_graphics("xterm-kitty"));
    assert!(!term_hints_graphics("xterm-KITTY"));
    assert!(!term_hints_graphics(""));
}

#[test]
fn device_attributes_answers() {
    assert!(query_graphics_support("\x1b[?62;4;6c"));
    assert!(query_graphics_support("\x1b[?62;4c"));
    assert!(query_graphics_support(";4;"));
    assert!(query_graphics_support(";4c"));
    assert!(query_graphics_support("\x1b[?6c"));
    assert!(query_graphics_support("c\x1b[?"));
    assert!(!query_graphics_support("\x1b[?62;1"));
    assert!(!query_graphics_support("\x1b[62;1c"));
    assert!(!query_graphics_support(""));
    assert!(!query_graphics_support("c"));
    assert!(!query_graphics_support("4;"));
}

#[test]
fn answer_is_complete_at_its_final_c() {
    assert!(response_complete("\x1b[?62;4c"));
    assert!(response_complete("c"));
    assert!(!response_complete("\x1b[?62;4"));
    assert!(!response_complete(""));
    assert!(!response_complete("c;"));
}

#[test]
fn terminal_programs() {
    assert!(is_iterm2(Some("iTerm.app")));
    assert!(!is_iterm2(Some("iterm.app")));
    assert!(!is_iterm2(Some("WezTerm")));
    assert!(!is_iterm2(None));
    assert!(tapwatch::iterm2::supports_inline_images(Some("iTerm.app")));
    assert!(tapwatch::iterm2::supports_inline_images(Some("WezTerm")));
    assert!(tapwatch::iterm2::supports_inline_images(Some("mintty")));
    assert!(!tapwatch::iterm2::supports_inline_images(Some("Apple_Terminal")));
    assert!(!tapwatch::iterm2::supports_inline_images(Some("")));
    assert!(!tapwatch::iterm2::supports_inline_images(None));
}
