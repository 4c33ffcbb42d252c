//! The text sprite: three poses drawn with block characters, for
//! terminals that show no images.

use vstd::prelude::*;
use vstd::string::*;

verus! {

/// Number of rows of a pose.
pub const SPRITE_ROWS: usize = 11;

/// Number of characters in each row of a pose.
pub const SPRITE_COLUMNS: usize = 19;

/// The sprite at rest.
pub const PIXEL_IDLE: [&'static str; 11] = [
    "      ▄████▄       ",
    "     ██░░░░██      ",
    "    ██ ▀  ▀ ██     ",
    "    ██  ▄▄  ██     ",
    "     ████████      ",
    "    ██████████     ",
    "   ██▒▒▒▒▒▒▒▒██    ",
    "   ██▒██████▒██    ",
    "   ██▒██▓▓██▒██    ",
    "   ██▒██████▒██    ",
    "   ██▀▀▀▀▀▀▀▀██    ",
];

/// The sprite typing, first pose.
pub const PIXEL_TYPE1: [&'static str; 11] = [
    "      ▄████▄   ♪   ",
    "     ██░░░░██      ",
    "    ██ ●  ● ██     ",
    "    ██  ▄▄  ██     ",
    "     ████████      ",
    "   ▄██████████     ",
    "   ██▒▒▒▒▒▒▒▒██    ",
    "   ██▒██████▒██    ",
    "   ██▒██▓▓██▒██    ",
    "   ██▒██████▒██    ",
    "   ██▀▀▀▀▀▀▀▀██    ",
];

/// The sprite typing, second pose.
pub const PIXEL_TYPE2: [&'static str; 11] = [
    "  ♫   ▄████▄       ",
    "     ██░░░░██      ",
    "    ██ ●  ● ██     ",
    "    ██  ▄▄  ██     ",
    "     ████████      ",
    "    ██████████▄    ",
    "   ██▒▒▒▒▒▒▒▒██    ",
    "   ██▒██████▒██    ",
    "   ██▒██▓▓██▒██    ",
    "   ██▒██████▒██    ",
    "   ██▀▀▀▀▀▀▀▀██    ",
];

/// The pose for a frame of the animation: the pose at rest while idle,
/// and while typing the second pose on every third frame, counted from the
/// second, and the first pose on the others.
pub open spec fn pose(is_typing: bool, frame_num: usize) -> [&'static str; 11] {
    if !is_typing {
        PIXEL_IDLE
    } else if frame_num % 3 == 1 {
        PIXEL_TYPE2
    } else {
        PIXEL_TYPE1
    }
}

/// The rows of the pose for a frame of the animation, top to bottom.
pub fn get_frame(is_typing: bool, frame_num: usize) -> (frame: &'static [&'static str])
    ensures
        frame@ == pose(is_typing, frame_num)@,
        frame@.len() == SPRITE_ROWS,
{
    if is_typing {
        if frame_num % 3 == 1 {
            &PIXEL_TYPE2
        } else {
            &PIXEL_TYPE1
        }
    } else {
        &PIXEL_IDLE
    }
}

/// Every pose is a rectangle of `SPRITE_ROWS` rows of `SPRITE_COLUMNS`
/// characters, so that no pose shifts against another.
pub proof fn lemma_poses_are_rectangles(is_typing: bool, frame_num: usize, row: int)
    requires
        0 <= row < SPRITE_ROWS,
    ensures
        pose(is_typing, frame_num)@.len() == SPRITE_ROWS,
        pose(is_typing, frame_num)@[row]@.len() == SPRITE_COLUMNS,
{
    reveal_strlit("      ▄████▄       ");
    reveal_strlit("     ██░░░░██      ");
    reveal_strlit("    ██ ▀  ▀ ██     ");
    reveal_strlit("    ██  ▄▄  ██     ");
    reveal_strlit("     ████████      ");
    reveal_strlit("    ██████████     ");
    reveal_strlit("   ██▒▒▒▒▒▒▒▒██    ");
    reveal_strlit("   ██▒██████▒██    ");
    reveal_strlit("   ██▒██▓▓██▒██    ");
    reveal_strlit("   ██▀▀▀▀▀▀▀▀██    ");
    reveal_strlit("      ▄████▄   ♪   ");
    reveal_strlit("    ██ ●  ● ██     ");
    reveal_strlit("   ▄██████████     ");
    reveal_strlit("  ♫   ▄████▄       ");
    reveal_strlit("    ██████████▄    ");
}

/// The typing poses repeat with a period of three frames.
pub proof fn lemma_pose_period(frame_num: usize)
    requires
        frame_num + 3 <= usize::MAX,
    ensures
        pose(true, (frame_num + 3) as usize) == pose(true, frame_num),
        pose(false, frame_num) == PIXEL_IDLE,
{
}

} // verus!
