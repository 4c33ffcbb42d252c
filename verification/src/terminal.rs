//! What is written to the terminal and to the window manager, as text:
//! the inline-image escape sequences, the window placement script, and the
//! rules by which support for inline images is detected.
//!
//! Nothing here writes anything. Each function returns the text that a
//! caller then sends.

use crate::text::contains_text;
use crate::text::decimal;
use crate::text::decimal_string;
use crate::text::ends_with_char;
use crate::text::has_substring;
use crate::text::lowercase_of;
use crate::text::same_text;
use crate::text::to_lowercase;
use base64::engine::general_purpose::STANDARD;
use base64::Engine;
use vstd::prelude::*;
use vstd::string::*;

verus! {

/// Width of the fitted window in pixels.
pub const FIT_WIDTH: u32 = 400;

/// Height of the fitted window in pixels.
pub const FIT_HEIGHT: u32 = 340;

/// Distance of the fitted window from the screen edge in pixels.
pub const MARGIN: u32 = 20;

/// The screen edge to which the window is moved.
#[derive(Debug, Clone, Copy, PartialEq, Eq, Structural)]
pub enum Direction {
    Top,
    Bottom,
    Left,
    Right,
}

/// The part of the placement script that finds the screen on which the
/// window lies, with its frame and its visible frame.
pub const FIND_SCREEN_SCRIPT: &'static str = r#"
        use framework "AppKit"

        -- Get main screen height for coordinate conversion
        set mainScreen to current application's NSScreen's mainScreen()
        set mainFrame to mainScreen's frame()
        set mainScreenHeight to item 2 of item 2 of mainFrame

        -- Get current window bounds (in window/screen coordinates)
        tell application "iTerm2"
            tell current window
                set {wx, wy, wx2, wy2} to bounds
            end tell
        end tell

        -- Calculate window center in window coords
        set winCenterX to (wx + wx2) / 2
        set winCenterY to (wy + wy2) / 2

        -- Convert window center Y to Cocoa coords for screen lookup
        set winCenterYCocoa to mainScreenHeight - winCenterY

        -- Find the screen containing this point
        set allScreens to current application's NSScreen's screens()
        set screenCount to count of allScreens

        set targetFrame to missing value
        set targetVisFrame to missing value

        repeat with i from 1 to screenCount
            set scr to item i of allScreens
            set scrFrame to scr's frame()
            set scrX to item 1 of item 1 of scrFrame
            set scrY to item 2 of item 1 of scrFrame
            set scrW to item 1 of item 2 of scrFrame
            set scrH to item 2 of item 2 of scrFrame

            -- Check if window center is within this screen (using Cocoa coords)
            if winCenterX >= scrX and winCenterX < (scrX + scrW) and winCenterYCocoa >= scrY and winCenterYCocoa < (scrY + scrH) then
                set targetFrame to scrFrame
                set targetVisFrame to scr's visibleFrame()
                exit repeat
            end if
        end repeat

        -- Fallback to main screen if not found
        if targetFrame is missing value then
            set targetFrame to mainFrame
            set targetVisFrame to mainScreen's visibleFrame()
        end if
    "#;

/// The part of the placement script that works out the top edge and opens
/// the assignment of the window's bounds.
pub const MOVE_TOP_SCRIPT: &'static str = r#"

            -- Get visible frame in Cocoa coords
            set visOriginY to item 2 of item 1 of targetVisFrame
            set visHeight to item 2 of item 2 of targetVisFrame

            -- Top of visible area in Cocoa coords = visOriginY + visHeight
            -- Convert to window coords: mainScreenHeight - (visOriginY + visHeight)
            set topInWindowCoords to mainScreenHeight - visOriginY - visHeight

            tell application "iTerm2"
                tell current window
                    set {x, y, x2, y2} to bounds
                    -- Keep x position, move to top of current screen
                    set bounds to {"#;

/// The part of the placement script that works out the bottom edge and opens
/// the assignment of the window's bounds.
pub const MOVE_BOTTOM_SCRIPT: &'static str = r#"

            -- Get visible frame in Cocoa coords
            set visOriginY to item 2 of item 1 of targetVisFrame

            -- Bottom of visible area in Cocoa coords = visOriginY
            -- Convert to window coords: mainScreenHeight - visOriginY
            set bottomInWindowCoords to mainScreenHeight - visOriginY

            tell application "iTerm2"
                tell current window
                    set {x, y, x2, y2} to bounds
                    -- Keep x position, move to bottom of current screen
                    set bounds to {"#;

/// The part of the placement script that works out the left edge and opens
/// the assignment of the window's bounds.
pub const MOVE_LEFT_SCRIPT: &'static str = r#"

            -- X coordinates are same in both systems
            set visOriginX to item 1 of item 1 of targetVisFrame

            tell application "iTerm2"
                tell current window
                    set {x, y, x2, y2} to bounds
                    -- Move to left edge, keep y position
                    set bounds to {"#;

/// The part of the placement script that works out the right edge and opens
/// the assignment of the window's bounds.
pub const MOVE_RIGHT_SCRIPT: &'static str = r#"

            -- X coordinates are same in both systems
            set visOriginX to item 1 of item 1 of targetVisFrame
            set visWidth to item 1 of item 2 of targetVisFrame
            set screenRight to visOriginX + visWidth

            tell application "iTerm2"
                tell current window
                    set {x, y, x2, y2} to bounds
                    -- Move to right edge, keep y position
                    set bounds to {"#;

/// The end of the placement script, from the brace that closes the bounds.
pub const END_SCRIPT: &'static str = r#"}
                end tell
            end tell"#;

/// The four bounds that the placement script assigns, as it writes them:
/// left, top, right and bottom, in terms of the window's own `x` and `y`
/// and of the edge that the script has worked out. The window gets the
/// fitted width and height and keeps the margin from the edge.
pub open spec fn bounds_text(direction: Direction) -> Seq<char> {
    let margin = decimal(MARGIN as nat);
    let width = decimal(FIT_WIDTH as nat);
    let height = decimal(FIT_HEIGHT as nat);
    match direction {
        Direction::Top => "x, topInWindowCoords + "@ + margin + ", x + "@ + width
            + ", topInWindowCoords + "@ + margin + " + "@ + height,
        Direction::Bottom => "x, bottomInWindowCoords - "@ + height + " - "@ + margin
            + ", x + "@ + width + ", bottomInWindowCoords - "@ + margin,
        Direction::Left => "visOriginX + "@ + margin + ", y, visOriginX + "@ + margin + " + "@
            + width + ", y + "@ + height,
        Direction::Right => "screenRight - "@ + width + " - "@ + margin + ", y, screenRight - "@
            + margin + ", y + "@ + height,
    }
}

/// The part of the placement script that is particular to an edge, up to
/// the brace that opens the bounds.
pub open spec fn move_script(direction: Direction) -> Seq<char> {
    match direction {
        Direction::Top => MOVE_TOP_SCRIPT@,
        Direction::Bottom => MOVE_BOTTOM_SCRIPT@,
        Direction::Left => MOVE_LEFT_SCRIPT@,
        Direction::Right => MOVE_RIGHT_SCRIPT@,
    }
}

/// The whole placement script for an edge.
pub open spec fn placement_script(direction: Direction) -> Seq<char> {
    FIND_SCREEN_SCRIPT@ + move_script(direction) + bounds_text(direction) + END_SCRIPT@
}

/// The four bounds that the placement script assigns, as text.
fn bounds_string(direction: Direction) -> (text: String)
    ensures
        text@ == bounds_text(direction),
{
    let margin = decimal_string(MARGIN as u64);
    let width = decimal_string(FIT_WIDTH as u64);
    let height = decimal_string(FIT_HEIGHT as u64);
    match direction {
        Direction::Top => {
            let mut text = String::from_str("x, topInWindowCoords + ");
            text.append(margin.as_str());
            text.append(", x + ");
            text.append(width.as_str());
            text.append(", topInWindowCoords + ");
            text.append(margin.as_str());
            text.append(" + ");
            text.append(height.as_str());
            text
        },
        Direction::Bottom => {
            let mut text = String::from_str("x, bottomInWindowCoords - ");
            text.append(height.as_str());
            text.append(" - ");
            text.append(margin.as_str());
            text.append(", x + ");
            text.append(width.as_str());
            text.append(", bottomInWindowCoords - ");
            text.append(margin.as_str());
            text
        },
        Direction::Left => {
            let mut text = String::from_str("visOriginX + ");
            text.append(margin.as_str());
            text.append(", y, visOriginX + ");
            text.append(margin.as_str());
            text.append(" + ");
            text.append(width.as_str());
            text.append(", y + ");
            text.append(height.as_str());
            text
        },
        Direction::Right => {
            let mut text = String::from_str("screenRight - ");
            text.append(width.as_str());
            text.append(" - ");
            text.append(margin.as_str());
            text.append(", y, screenRight - ");
            text.append(margin.as_str());
            text.append(", y + ");
            text.append(height.as_str());
            text
        },
    }
}

/// The script that fits the window to `FIT_WIDTH` by `FIT_HEIGHT` pixels
/// and moves it to the given edge of the screen on which it lies, at
/// `MARGIN` pixels from that edge.
pub fn fit_and_move(direction: Direction) -> (script: String)
    ensures
        script@ == placement_script(direction),
{
    let mut script = String::from_str(FIND_SCREEN_SCRIPT);
    match direction {
        Direction::Top => script.append(MOVE_TOP_SCRIPT),
        Direction::Bottom => script.append(MOVE_BOTTOM_SCRIPT),
        Direction::Left => script.append(MOVE_LEFT_SCRIPT),
        Direction::Right => script.append(MOVE_RIGHT_SCRIPT),
    }
    script.append(bounds_string(direction).as_str());
    script.append(END_SCRIPT);
    script
}

/// The standard base64 text of a sequence of bytes, with padding, as the
/// `base64` crate's `STANDARD` engine writes it.
pub uninterp spec fn base64_standard(data: Seq<u8>) -> Seq<char>;

/// Whether the base64 text of `len` bytes has a length that fits in
/// `usize`.
pub open spec fn encodable(len: nat) -> bool {
    len / 3 * 4 + 4 <= usize::MAX
}

/// `Engine::encode` of `base64::engine::general_purpose::STANDARD`: the
/// standard base64 text of the bytes, which depends on the bytes alone.
/// The call panics where the length of that text does not fit in `usize`.
#[verifier::external_body]
fn encode_base64(data: &[u8]) -> (text: String)
    requires
        encodable(data@.len()),
    ensures
        text@ == base64_standard(data@),
{
    STANDARD.encode(data)
}

/// The arguments of an inline image: the size in bytes, the inline flag,
/// then the width and the height in cells where they are given, and the
/// flag that keeps the aspect ratio where it is asked for, joined by
/// semicolons.
pub open spec fn image_args(
    size: nat,
    width: Option<u32>,
    height: Option<u32>,
    preserve_aspect: bool,
) -> Seq<char> {
    "size="@ + decimal(size) + ";inline=1"@ + (match width {
        Some(w) => ";width="@ + decimal(w as nat),
        None => Seq::empty(),
    }) + (match height {
        Some(h) => ";height="@ + decimal(h as nat),
        None => Seq::empty(),
    }) + (if preserve_aspect {
        ";preserveAspectRatio=1"@
    } else {
        Seq::empty()
    })
}

/// The escape sequence that shows `encoded`, the base64 text of an image
/// of `size` bytes, inline: `ESC ] 1337 ; File =`, the arguments, a colon,
/// the text, and `BEL`.
pub open spec fn inline_image_text(
    size: nat,
    encoded: Seq<char>,
    width: Option<u32>,
    height: Option<u32>,
    preserve_aspect: bool,
) -> Seq<char> {
    "\x1b]1337;File="@ + image_args(size, width, height, preserve_aspect) + ":"@ + encoded
        + "\x07"@
}

/// The escape sequence that moves the cursor to a row and a column, both
/// counted from zero here and from one on the wire.
pub open spec fn cursor_to_text(row: u16, col: u16) -> Seq<char> {
    "\x1b["@ + decimal((row + 1) as nat) + ";"@ + decimal((col + 1) as nat) + "H"@
}

/// The escape sequences that show an image at a position: save the
/// cursor, move it, show the image with its aspect ratio kept, restore the
/// cursor.
pub open spec fn image_at_position_text(
    size: nat,
    encoded: Seq<char>,
    row: u16,
    col: u16,
    width: Option<u32>,
    height: Option<u32>,
) -> Seq<char> {
    "\x1b7"@ + cursor_to_text(row, col) + inline_image_text(size, encoded, width, height, true)
        + "\x1b8"@
}

/// `count` spaces.
pub open spec fn spaces(count: nat) -> Seq<char> {
    Seq::new(count, |i: int| ' ')
}

/// The escape sequences that blank `rows` rows of `width` cells each, from
/// `row` down, at column `col`.
pub open spec fn clear_rows_text(row: u16, col: u16, width: u16, rows: nat) -> Seq<char>
    decreases rows,
{
    if rows == 0 {
        Seq::empty()
    } else {
        clear_rows_text(row, col, width, (rows - 1) as nat) + "\x1b["@ + decimal(
            (row + rows) as nat,
        ) + ";"@ + decimal((col + 1) as nat) + "H"@ + spaces(width as nat)
    }
}

/// The escape sequences that blank a region and then show an image at
/// its corner: save the cursor, blank the rows, move, show the image,
/// restore the cursor.
pub open spec fn image_region_text(
    size: nat,
    encoded: Seq<char>,
    row: u16,
    col: u16,
    clear_width: u16,
    clear_height: u16,
    width: Option<u32>,
    height: Option<u32>,
) -> Seq<char> {
    "\x1b7"@ + clear_rows_text(row, col, clear_width, clear_height as nat) + cursor_to_text(
        row,
        col,
    ) + inline_image_text(size, encoded, width, height, true) + "\x1b8"@
}

fn image_args_string(
    size: usize,
    width: Option<u32>,
    height: Option<u32>,
    preserve_aspect: bool,
) -> (args: String)
    ensures
        args@ == image_args(size as nat, width, height, preserve_aspect),
{
    let mut args = String::from_str("size=");
    args.append(decimal_string(size as u64).as_str());
    args.append(";inline=1");
    let ghost head = args@;
    if let Some(w) = width {
        args.append(";width=");
        args.append(decimal_string(w as u64).as_str());
        assert(args@ =~= head + (";width="@ + decimal(w as nat)));
    } else {
        assert(args@ =~= head + Seq::<char>::empty());
    }
    let ghost with_width = args@;
    if let Some(h) = height {
        args.append(";height=");
        args.append(decimal_string(h as u64).as_str());
        assert(args@ =~= with_width + (";height="@ + decimal(h as nat)));
    } else {
        assert(args@ =~= with_width + Seq::<char>::empty());
    }
    let ghost with_height = args@;
    if preserve_aspect {
        args.append(";preserveAspectRatio=1");
    } else {
        assert(args@ =~= with_height + Seq::<char>::empty());
    }
    args
}

/// Wraps the base64 text of an image of `size` bytes in the escape
/// sequence that shows it inline.
pub fn inline_image_frame(
    size: usize,
    encoded: &str,
    width: Option<u32>,
    height: Option<u32>,
    preserve_aspect: bool,
) -> (sequence: String)
    ensures
        sequence@ == inline_image_text(size as nat, encoded@, width, height, preserve_aspect),
{
    let mut sequence = String::from_str("\x1b]1337;File=");
    sequence.append(image_args_string(size, width, height, preserve_aspect).as_str());
    sequence.append(":");
    sequence.append(encoded);
    sequence.append("\x07");
    sequence
}

/// The escape sequence that shows the image `data` inline, `width` by
/// `height` cells where given, in the terminal's inline-image protocol.
pub fn display_image_inline(
    data: &[u8],
    width: Option<u32>,
    height: Option<u32>,
    preserve_aspect: bool,
) -> (sequence: String)
    requires
        encodable(data@.len()),
    ensures
        sequence@ == inline_image_text(
            data@.len(),
            base64_standard(data@),
            width,
            height,
            preserve_aspect,
        ),
{
    let encoded = encode_base64(data);
    inline_image_frame(data.len(), encoded.as_str(), width, height, preserve_aspect)
}

fn cursor_to_string(row: u16, col: u16) -> (sequence: String)
    ensures
        sequence@ == cursor_to_text(row, col),
{
    let mut sequence = String::from_str("\x1b[");
    sequence.append(decimal_string(row as u64 + 1).as_str());
    sequence.append(";");
    sequence.append(decimal_string(col as u64 + 1).as_str());
    sequence.append("H");
    sequence
}

/// Wraps the base64 text of an image of `size` bytes in the escape
/// sequences that show it at a position.
pub fn image_at_position_frame(
    size: usize,
    encoded: &str,
    row: u16,
    col: u16,
    width: Option<u32>,
    height: Option<u32>,
) -> (sequence: String)
    ensures
        sequence@ == image_at_position_text(size as nat, encoded@, row, col, width, height),
{
    let mut sequence = String::from_str("\x1b7");
    sequence.append(cursor_to_string(row, col).as_str());
    sequence.append(inline_image_frame(size, encoded, width, height, true).as_str());
    sequence.append("\x1b8");
    sequence
}

/// The escape sequences that show the image `data` with its corner at
/// `row` and `col`, and leave the cursor where it was.
pub fn display_image_at_position(
    data: &[u8],
    row: u16,
    col: u16,
    width: Option<u32>,
    height: Option<u32>,
) -> (sequence: String)
    requires
        encodable(data@.len()),
    ensures
        sequence@ == image_at_position_text(
            data@.len(),
            base64_standard(data@),
            row,
            col,
            width,
            height,
        ),
{
    let encoded = encode_base64(data);
    image_at_position_frame(data.len(), encoded.as_str(), row, col, width, height)
}

fn spaces_string(count: u16) -> (text: String)
    ensures
        text@ == spaces(count as nat),
{
    proof {
        reveal_strlit(" ");
    }
    let mut text = String::new();
    let mut i: u16 = 0;
    while i < count
        invariant
            i <= count,
            text@ == spaces(i as nat),
            " "@ == seq![' '],
        decreases count - i,
    {
        text.append(" ");
        i += 1;
        assert(text@ =~= spaces(i as nat));
    }
    text
}

fn clear_rows_string(row: u16, col: u16, width: u16, rows: u16) -> (sequence: String)
    ensures
        sequence@ == clear_rows_text(row, col, width, rows as nat),
{
    let blank = spaces_string(width);
    let mut sequence = String::new();
    let mut r: u16 = 0;
    while r < rows
        invariant
            r <= rows,
            sequence@ == clear_rows_text(row, col, width, r as nat),
            blank@ == spaces(width as nat),
        decreases rows - r,
    {
        let ghost before = sequence@;
        sequence.append("\x1b[");
        sequence.append(decimal_string(row as u64 + r as u64 + 1).as_str());
        sequence.append(";");
        sequence.append(decimal_string(col as u64 + 1).as_str());
        sequence.append("H");
        sequence.append(blank.as_str());
        r += 1;
    }
    sequence
}

/// Wraps the base64 text of an image of `size` bytes in the escape
/// sequences that blank a region and show the image at its corner.
pub fn image_region_frame(
    size: usize,
    encoded: &str,
    row: u16,
    col: u16,
    clear_width: u16,
    clear_height: u16,
    img_width: Option<u32>,
    img_height: Option<u32>,
) -> (sequence: String)
    ensures
        sequence@ == image_region_text(
            size as nat,
            encoded@,
            row,
            col,
            clear_width,
            clear_height,
            img_width,
            img_height,
        ),
{
    let mut sequence = String::from_str("\x1b7");
    sequence.append(clear_rows_string(row, col, clear_width, clear_height).as_str());
    sequence.append(cursor_to_string(row, col).as_str());
    sequence.append(inline_image_frame(size, encoded, img_width, img_height, true).as_str());
    sequence.append("\x1b8");
    sequence
}

/// The escape sequences that blank `clear_height` rows of `clear_width`
/// cells at `row` and `col`, show the image `data` there, and leave the
/// cursor where it was.
pub fn display_image_region(
    data: &[u8],
    row: u16,
    col: u16,
    clear_width: u16,
    clear_height: u16,
    img_width: Option<u32>,
    img_height: Option<u32>,
) -> (sequence: String)
    requires
        encodable(data@.len()),
    ensures
        sequence@ == image_region_text(
            data@.len(),
            base64_standard(data@),
            row,
            col,
            clear_width,
            clear_height,
            img_width,
            img_height,
        ),
{
    let encoded = encode_base64(data);
    image_region_frame(
        data.len(),
        encoded.as_str(),
        row,
        col,
        clear_width,
        clear_height,
        img_width,
        img_height,
    )
}

/// How the query for the terminal's device attributes ended.
#[derive(Debug, Clone, PartialEq, Eq)]
pub enum GraphicsQuery {
    /// The terminal could not be put in the mode that the query needs.
    NotATerminal,
    /// The query could not be written.
    WriteFailed,
    /// The query was written, and this was read back before the time ran
    /// out; nothing, where the terminal stayed silent.
    Answered(String),
}

/// What the variables that terminals set hint at.
#[derive(Debug, Clone, PartialEq, Eq)]
pub struct EnvHints {
    /// Whether the variable that Kitty sets for its windows is set.
    pub kitty_window: bool,
    /// Whether the variable that WezTerm sets for its panes is set.
    pub wezterm_pane: bool,
    /// The terminal type, where it is set.
    pub term: Option<String>,
}

/// Whether a lower-case setting switches a feature on.
pub open spec fn setting_is_on(lowered: Seq<char>) -> bool {
    lowered == "1"@ || lowered == "true"@ || lowered == "yes"@ || lowered == "on"@
}

/// Whether an answer to the device attributes query shows support for
/// graphics: it lists attribute 4, or it is an answer at all, with the
/// opening `ESC [ ?` and a `c`.
pub open spec fn answer_shows_graphics(answer: Seq<char>) -> bool {
    ||| has_substring(answer, ";4;"@)
    ||| has_substring(answer, ";4c"@)
    ||| (has_substring(answer, "\x1b[?"@) && has_substring(answer, "c"@))
}

/// Whether a lower-case terminal type names a terminal with a graphics
/// protocol.
pub open spec fn term_names_graphics(lowered: Seq<char>) -> bool {
    has_substring(lowered, "kitty"@) || has_substring(lowered, "ghostty"@)
}

/// Whether the variables hint at a terminal with a graphics protocol,
/// given the lower-case terminal type.
pub open spec fn hints_at_graphics(
    kitty_window: bool,
    wezterm_pane: bool,
    lowered_term: Option<Seq<char>>,
) -> bool {
    kitty_window || wezterm_pane || (lowered_term matches Some(term) && term_names_graphics(term))
}

/// Whether inline images are supported: a setting decides where there is
/// one; else the query decides, unless it could not be written; else the
/// variables that terminals set decide.
pub open spec fn supports_images(
    lowered_setting: Option<Seq<char>>,
    query: GraphicsQuery,
    kitty_window: bool,
    wezterm_pane: bool,
    lowered_term: Option<Seq<char>>,
) -> bool {
    match lowered_setting {
        Some(setting) => setting_is_on(setting),
        None => match query {
            GraphicsQuery::NotATerminal => false,
            GraphicsQuery::Answered(answer) => answer_shows_graphics(answer@),
            GraphicsQuery::WriteFailed => hints_at_graphics(
                kitty_window,
                wezterm_pane,
                lowered_term,
            ),
        },
    }
}

/// The lower-case form of a text that may be missing.
pub open spec fn lowered(text: Option<Seq<char>>) -> Option<Seq<char>> {
    match text {
        Some(t) => Some(lowercase_of(t)),
        None => None,
    }
}

/// The text of a string that may be missing.
pub open spec fn text_of(value: Option<String>) -> Option<Seq<char>> {
    match value {
        Some(v) => Some(v@),
        None => None,
    }
}

/// Whether a setting in lower case switches a feature on: `1`, `true`,
/// `yes` or `on`.
pub fn setting_enables(lowered_setting: &str) -> (on: bool)
    ensures
        on == setting_is_on(lowered_setting@),
{
    same_text(lowered_setting, "1") || same_text(lowered_setting, "true") || same_text(
        lowered_setting,
        "yes",
    ) || same_text(lowered_setting, "on")
}

/// Whether what was read so far is a whole answer to the device
/// attributes query: such an answer ends with `c`.
pub fn response_complete(so_far: &str) -> (complete: bool)
    ensures
        complete == (so_far@.len() > 0 && so_far@.last() == 'c'),
{
    ends_with_char(so_far, 'c')
}

/// Whether an answer to the device attributes query shows support for
/// graphics.
pub fn query_graphics_support(answer: &str) -> (supported: bool)
    ensures
        supported == answer_shows_graphics(answer@),
{
    if contains_text(answer, ";4;") || contains_text(answer, ";4c") {
        return true;
    }
    contains_text(answer, "\x1b[?") && contains_text(answer, "c")
}

/// Whether a terminal type in lower case names a terminal with a graphics
/// protocol.
pub fn term_hints_graphics(lowered_term: &str) -> (hinted: bool)
    ensures
        hinted == term_names_graphics(lowered_term@),
{
    contains_text(lowered_term, "kitty") || contains_text(lowered_term, "ghostty")
}

/// Whether the variables that terminals set hint at a terminal with a
/// graphics protocol.
pub fn check_env_hints(hints: &EnvHints) -> (hinted: bool)
    ensures
        hinted == hints_at_graphics(
            hints.kitty_window,
            hints.wezterm_pane,
            lowered(text_of(hints.term)),
        ),
{
    if hints.kitty_window {
        return true;
    }
    if hints.wezterm_pane {
        return true;
    }
    match &hints.term {
        Some(term) => term_hints_graphics(to_lowercase(term.as_str()).as_str()),
        None => false,
    }
}

/// What a setting says of inline images, before anything is asked of the
/// terminal: a setting decides, and without one nothing is decided yet.
pub open spec fn forced_by(lowered_setting: Option<Seq<char>>) -> Option<bool> {
    match lowered_setting {
        Some(setting) => Some(setting_is_on(setting)),
        None => None,
    }
}

/// What the user's setting says of inline images, where the user made
/// one. With a setting there is no need to ask the terminal.
pub fn forced_setting(setting: Option<&str>) -> (forced: Option<bool>)
    ensures
        forced == forced_by(
            match setting {
                Some(value) => Some(lowercase_of(value@)),
                None => None,
            },
        ),
{
    match setting {
        Some(value) => Some(setting_enables(to_lowercase(value).as_str())),
        None => None,
    }
}

/// Whether the terminal supports inline images, from what was found out
/// about it: the setting that forces the answer, where the user made one;
/// the outcome of the device attributes query; and what the variables of
/// the terminal hint at.
pub fn supports_inline_images(
    setting: Option<&str>,
    query: &GraphicsQuery,
    hints: &EnvHints,
) -> (supported: bool)
    ensures
        supported == supports_images(
            match setting {
                Some(value) => Some(lowercase_of(value@)),
                None => None,
            },
            *query,
            hints.kitty_window,
            hints.wezterm_pane,
            lowered(text_of(hints.term)),
        ),
{
    if let Some(forced) = forced_setting(setting) {
        return forced;
    }
    match query {
        GraphicsQuery::NotATerminal => false,
        GraphicsQuery::Answered(answer) => query_graphics_support(answer.as_str()),
        GraphicsQuery::WriteFailed => check_env_hints(hints),
    }
}

} // verus!
