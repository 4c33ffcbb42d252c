//! What a frame shows: the sprite as an inline image, the text with the
//! cells of its newest characters, and the overlays that count down while
//! the frame is painted.

use crate::layout::draw_text_display;
use crate::layout::new_chars_rect;
use crate::layout::sprite_corner;
use crate::layout::sprite_position;
use crate::layout::text_display_of;
use crate::layout::Rect;
use crate::layout::TextDisplay;
use crate::layout::TextDisplayView;
use crate::layout::IMAGE_COLUMNS;
use crate::layout::IMAGE_ROWS;
use crate::spritesheet::frame_for;
use crate::spritesheet::get_idle_frame;
use crate::spritesheet::get_typing_frame;
use crate::spritesheet::is_loaded;
use crate::spritesheet::SpriteSheet;
use crate::spritesheet::SpriteSheetView;
use crate::state::AnimationState;
use crate::state::App;
use crate::model::AppView;
use crate::state::EffectsRun;
use crate::terminal::base64_standard;
use crate::terminal::encodable;
use crate::terminal::display_image_at_position;
use crate::terminal::image_at_position_text;
use vstd::prelude::*;
use vstd::string::*;

verus! {

/// Columns that an animated picture takes where it stands in for the
/// sprite.
pub const GIF_COLUMNS: u32 = 15;

/// Rows that an animated picture takes where it stands in for the sprite.
pub const GIF_ROWS: u32 = 8;

/// Whether the base64 text of `len` bytes has a length that fits in
/// `usize`.
pub fn is_encodable(len: usize) -> (fits: bool)
    ensures
        fits == encodable(len as nat),
{
    len / 3 <= (usize::MAX - 4) / 4
}

/// The escape sequences that show the image `data` at a position, or
/// nothing where the image is too large to be written as text.
pub fn try_display_image_at_position(
    data: &[u8],
    row: u16,
    col: u16,
    width: Option<u32>,
    height: Option<u32>,
) -> (sequence: Option<String>)
    ensures
        sequence is Some <==> encodable(data@.len()),
        sequence matches Some(text) ==> text@ == image_at_position_text(
            data@.len(),
            base64_standard(data@),
            row,
            col,
            width,
            height,
        ),
{
    if is_encodable(data.len()) {
        Some(display_image_at_position(data, row, col, width, height))
    } else {
        None
    }
}

/// The file of the frame that is on screen: the typing frame while
/// typing, the idle frame while idle, each within its animation's cycle.
pub open spec fn sprite_file(app: AppView, sheet: SpriteSheetView) -> Option<Seq<u8>> {
    match app.animation_state {
        AnimationState::Typing => frame_for(sheet.typing_frames, app.typing_frame),
        AnimationState::Idle => frame_for(sheet.idle_frames, app.idle_frame),
    }
}

/// The file of the frame that is on screen, if the sheet has one.
pub fn current_sprite<'a>(app: &App, sheet: &'a SpriteSheet) -> (file: Option<&'a Vec<u8>>)
    ensures
        match file {
            Some(bytes) => Some(bytes@),
            None => None,
        } == sprite_file(app@, sheet@),
{
    match app.animation_state {
        AnimationState::Typing => get_typing_frame(sheet, app.typing_frame),
        AnimationState::Idle => get_idle_frame(sheet, app.idle_frame),
    }
}

/// What is written to show the sprite in a frame: nothing where no
/// redraw is needed or the sheet is not loaded; else what shows the frame
/// on screen.
pub open spec fn sprite_text(
    app: AppView,
    sheet: SpriteSheetView,
    area: Rect,
    needs_image_redraw: bool,
) -> Option<Seq<char>> {
    if sheet.loaded && needs_image_redraw {
        frame_text(app, sheet, area)
    } else {
        None
    }
}

/// The text of a string that may be missing.
pub open spec fn written(text: Option<String>) -> Option<Seq<char>> {
    match text {
        Some(t) => Some(t@),
        None => None,
    }
}

/// What is written to show the frame on screen in the region `area`:
/// nothing where the sheet has no frame or the frame is too large to be
/// written as text; else the frame as an inline image of `IMAGE_COLUMNS`
/// by `IMAGE_ROWS` cells in the middle of the region.
pub open spec fn frame_text(app: AppView, sheet: SpriteSheetView, area: Rect) -> Option<Seq<char>> {
    match sprite_file(app, sheet) {
        Some(file) => if encodable(file.len()) {
            Some(
                image_at_position_text(
                    file.len(),
                    base64_standard(file),
                    sprite_corner(area).0,
                    sprite_corner(area).1,
                    Some(IMAGE_COLUMNS as u32),
                    Some(IMAGE_ROWS as u32),
                ),
            )
        } else {
            None
        },
        None => None,
    }
}

/// The escape sequences that show the frame on screen in the middle of
/// the region `area`, if the sheet has the frame.
pub fn display_spritesheet_frame(app: &App, sheet: &SpriteSheet, area: Rect) -> (sequence: Option<
    String,
>)
    requires
        area.wf(),
    ensures
        written(sequence) == frame_text(app@, sheet@, area),
{
    match current_sprite(app, sheet) {
        Some(data) => {
            let corner = sprite_position(area);
            try_display_image_at_position(
                data.as_slice(),
                corner.0,
                corner.1,
                Some(IMAGE_COLUMNS as u32),
                Some(IMAGE_ROWS as u32),
            )
        },
        None => None,
    }
}

/// The escape sequences that show the sprite in the region `area`, where
/// the sheet is loaded and a redraw is needed.
pub fn draw_dog(app: &App, sheet: &SpriteSheet, area: Rect, needs_image_redraw: bool) -> (sequence:
    Option<String>)
    requires
        area.wf(),
    ensures
        written(sequence) == sprite_text(app@, sheet@, area, needs_image_redraw),
{
    if is_loaded(sheet) && needs_image_redraw {
        display_spritesheet_frame(app, sheet, area)
    } else {
        None
    }
}

/// What a frame shows.
pub struct FramePlan {
    /// What is written to show the sprite, if it is drawn in this frame.
    pub image: Option<String>,
    /// How the text is drawn, if there is text.
    pub text: Option<TextDisplay>,
    /// The overlays that count down in this frame. The materialize
    /// overlay plays in the cells of the newest characters, the fade-out
    /// in the rows of the text.
    pub effects: EffectsRun,
}

/// How the text is drawn in a frame, if there is text.
pub open spec fn text_plan(app: AppView, text_region: Rect) -> Option<TextDisplayView> {
    if app.typed_text.len() > 0 {
        Some(text_display_of(text_region, app.typed_text, app.new_char_count))
    } else {
        None
    }
}

/// Whether the cells of the newest characters are in view in a frame.
pub open spec fn new_chars_in_view(app: AppView, text_region: Rect) -> bool {
    new_chars_rect(text_region, app.typed_text.len() as int, app.new_char_count as int) is Some
}

/// The view of a text display that may be missing.
pub open spec fn display_of(text: Option<TextDisplay>) -> Option<TextDisplayView> {
    match text {
        Some(display) => Some(display@),
        None => None,
    }
}

/// Plans a frame and counts the overlays down by the `elapsed`
/// milliseconds since the frame before. The sprite goes to
/// `sprite_region` and is drawn only where `needs_image_redraw` says so;
/// the text goes to `text_region`.
pub fn draw(
    app: &mut App,
    sheet: &SpriteSheet,
    text_region: Rect,
    sprite_region: Rect,
    needs_image_redraw: bool,
    elapsed: u32,
) -> (plan: FramePlan)
    requires
        old(app).wf(),
        text_region.wf(),
        sprite_region.wf(),
    ensures
        written(plan.image) == sprite_text(old(app)@, sheet@, sprite_region, needs_image_redraw),
        display_of(plan.text) == text_plan(old(app)@, text_region),
        final(app)@ == old(app)@.after_paint(elapsed, new_chars_in_view(old(app)@, text_region)),
        plan.effects == old(app)@.effects_run(new_chars_in_view(old(app)@, text_region)),
        final(app).wf(),
        final(app).clock == old(app).clock,
{
    let image = draw_dog(app, sheet, sprite_region, needs_image_redraw);
    if app.typed_text.as_str().unicode_len() == 0 {
        let effects = app.advance_effects(elapsed, false);
        return FramePlan { image, text: None, effects };
    }
    let display = draw_text_display(text_region, app.typed_text.as_str(), app.new_char_count);
    let in_view = display.new_char_area.is_some();
    let effects = app.advance_effects(elapsed, in_view);
    FramePlan { image, text: Some(display), effects }
}

/// Whether animated pictures can stand in for the sprite: the terminal
/// shows inline images, and at least one of the two pictures is there.
pub fn gif_mode_available(inline_images: bool, has_idle_gif: bool, has_typing_gif: bool) -> (available:
    bool)
    ensures
        available == (inline_images && (has_idle_gif || has_typing_gif)),
{
    inline_images && (has_idle_gif || has_typing_gif)
}

/// The animated picture for an animation state: while typing the typing
/// picture, or the idle one where that is missing; while idle the idle
/// picture.
pub open spec fn gif_for(
    state: AnimationState,
    idle_gif: Option<Seq<u8>>,
    typing_gif: Option<Seq<u8>>,
) -> Option<Seq<u8>> {
    match state {
        AnimationState::Typing => if typing_gif is Some {
            typing_gif
        } else {
            idle_gif
        },
        AnimationState::Idle => idle_gif,
    }
}

/// The contents of a byte vector that may be missing.
pub open spec fn picture_of(gif: Option<&Vec<u8>>) -> Option<Seq<u8>> {
    match gif {
        Some(bytes) => Some(bytes@),
        None => None,
    }
}

/// What is written to show the animated picture of a state: nothing
/// where the terminal shows no inline images, the state has no picture, or
/// the picture is too large to be written as text; else the picture as an
/// inline image of `GIF_COLUMNS` by `GIF_ROWS` cells at the position.
pub open spec fn gif_text(
    inline_images: bool,
    gif: Option<Seq<u8>>,
    row: u16,
    col: u16,
) -> Option<Seq<char>> {
    match gif {
        Some(file) => if inline_images && encodable(file.len()) {
            Some(
                image_at_position_text(
                    file.len(),
                    base64_standard(file),
                    row,
                    col,
                    Some(GIF_COLUMNS),
                    Some(GIF_ROWS),
                ),
            )
        } else {
            None
        },
        None => None,
    }
}

/// The escape sequences that show the animated picture of the
/// controller's state at a position, where inline images are supported and
/// the state has a picture.
pub fn display_gif_if_available(
    app: &App,
    inline_images: bool,
    idle_gif: Option<&Vec<u8>>,
    typing_gif: Option<&Vec<u8>>,
    row: u16,
    col: u16,
) -> (sequence: Option<String>)
    ensures
        written(sequence) == gif_text(
            inline_images,
            gif_for(app.animation_state, picture_of(idle_gif), picture_of(typing_gif)),
            row,
            col,
        ),
{
    if !inline_images {
        return None;
    }
    let gif = match app.animation_state {
        AnimationState::Typing => match typing_gif {
            Some(picture) => Some(picture),
            None => idle_gif,
        },
        AnimationState::Idle => idle_gif,
    };
    match gif {
        Some(data) => try_display_image_at_position(
            data.as_slice(),
            row,
            col,
            Some(GIF_COLUMNS),
            Some(GIF_ROWS),
        ),
        None => None,
    }
}

/// Nothing is written for the sprite in a frame that needs no redraw, or
/// while the sheet is not loaded: the text is then all that the frame
/// shows.
pub proof fn lemma_no_image_without_need(
    app: AppView,
    sheet: SpriteSheetView,
    area: Rect,
    needs_image_redraw: bool,
)
    requires
        !needs_image_redraw || !sheet.loaded,
    ensures
        sprite_text(app, sheet, area, needs_image_redraw) is None,
{
}

} // verus!
