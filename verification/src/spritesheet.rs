//! The sprite sheet: a grid of animation frames in one image, cut into
//! frames that are ready to be shown.
//!
//! The sheet is a grid of four columns. Its first two rows hold the idle
//! frames, its last two the typing frames. Each frame is cut out, freed of
//! its background, centred, and kept as the bytes of a PNG file.

use crate::bitmap::center_content;
use crate::bitmap::crop;
use crate::bitmap::decode;
use crate::bitmap::decoded_image;
use crate::bitmap::encode_png;
use crate::bitmap::centered;
use crate::bitmap::cut_out;
use crate::bitmap::without_background;
use crate::bitmap::png_encoding;
use crate::bitmap::remove_background;
use crate::bitmap::Bitmap;
use crate::bitmap::BitmapView;
use vstd::arithmetic::div_mod::lemma_mod_adds;
use vstd::arithmetic::div_mod::lemma_mod_self_0;
use vstd::prelude::*;

verus! {

/// Width of a frame of the sheet in pixels.
pub const FRAME_WIDTH: u32 = 256;

/// Height of a frame of the sheet in pixels.
pub const FRAME_HEIGHT: u32 = 256;

/// Number of frames in a row of the sheet.
pub const FRAMES_PER_ROW: u32 = 4;

/// Number of frames of each animation.
pub const FRAMES_PER_ANIMATION: u32 = 8;

/// The row of the sheet in which the idle frames start.
pub const IDLE_FIRST_ROW: u32 = 0;

/// The row of the sheet in which the typing frames start.
pub const TYPING_FIRST_ROW: u32 = 2;

/// The place of a frame in the sheet, in pixels.
#[derive(Debug, Clone, Copy, PartialEq, Eq, Structural)]
pub struct FrameRect {
    pub x: u32,
    pub y: u32,
    pub width: u32,
    pub height: u32,
}

/// The place of the frame with the running number `index` of an animation
/// whose frames start in the row `first_row` of the sheet.
pub open spec fn frame_rect(first_row: u32, index: int) -> FrameRect {
    FrameRect {
        x: ((index % FRAMES_PER_ROW as int) * FRAME_WIDTH) as u32,
        y: ((first_row + index / FRAMES_PER_ROW as int) * FRAME_HEIGHT) as u32,
        width: FRAME_WIDTH,
        height: FRAME_HEIGHT,
    }
}

/// The places of the frames of an animation, in order.
pub open spec fn frame_rects(first_row: u32) -> Seq<FrameRect> {
    Seq::new(FRAMES_PER_ANIMATION as nat, |index: int| frame_rect(first_row, index))
}

/// The places of the frames of the animation that starts in the row
/// `first_row` of the sheet.
fn animation_rects(first_row: u32) -> (rects: Vec<FrameRect>)
    requires
        first_row <= TYPING_FIRST_ROW,
    ensures
        rects@ == frame_rects(first_row),
{
    let mut rects: Vec<FrameRect> = Vec::new();
    let mut index: u32 = 0;
    while index < FRAMES_PER_ANIMATION
        invariant
            index <= FRAMES_PER_ANIMATION,
            first_row <= TYPING_FIRST_ROW,
            rects@.len() == index,
            forall|i: int| 0 <= i < index ==> rects@[i] == frame_rect(first_row, i),
        decreases FRAMES_PER_ANIMATION - index,
    {
        rects.push(
            FrameRect {
                x: (index % FRAMES_PER_ROW) * FRAME_WIDTH,
                y: (first_row + index / FRAMES_PER_ROW) * FRAME_HEIGHT,
                width: FRAME_WIDTH,
                height: FRAME_HEIGHT,
            },
        );
        index += 1;
    }
    assert(rects@ =~= frame_rects(first_row));
    rects
}

/// The places of the idle frames in the sheet: its first two rows, left
/// to right and top to bottom.
pub fn idle_frame_rects() -> (rects: Vec<FrameRect>)
    ensures
        rects@ == frame_rects(IDLE_FIRST_ROW),
{
    animation_rects(IDLE_FIRST_ROW)
}

/// The places of the typing frames in the sheet: its last two rows, left
/// to right and top to bottom.
pub fn typing_frame_rects() -> (rects: Vec<FrameRect>)
    ensures
        rects@ == frame_rects(TYPING_FIRST_ROW),
{
    animation_rects(TYPING_FIRST_ROW)
}

/// What is shown of the part `rect` of `sheet`: the part cut out, freed
/// of its background, and centred in a frame.
pub open spec fn prepared_frame(sheet: BitmapView, rect: FrameRect) -> BitmapView {
    centered(
        without_background(cut_out(sheet, rect.x, rect.y, rect.width, rect.height)),
        FRAME_WIDTH,
        FRAME_HEIGHT,
    )
}

/// Cuts the part `rect` out of `sheet`, frees it of its background and
/// centres what is left in a frame.
pub fn prepare_frame(sheet: &Bitmap, rect: &FrameRect) -> (frame: Bitmap)
    requires
        sheet.wf(),
    ensures
        frame@ == prepared_frame(sheet@, *rect),
        frame.wf(),
{
    let cut = crop(sheet, rect.x, rect.y, rect.width, rect.height);
    let keyed = remove_background(&cut);
    center_content(&keyed, FRAME_WIDTH, FRAME_HEIGHT)
}

/// The PNG files of the parts `rects` of `sheet`, in order, without those
/// parts for which no file is written.
pub open spec fn extracted(sheet: BitmapView, rects: Seq<FrameRect>) -> Seq<Seq<u8>>
    decreases rects.len(),
{
    if rects.len() == 0 {
        Seq::empty()
    } else {
        let before = extracted(sheet, rects.drop_last());
        match png_encoding(prepared_frame(sheet, rects.last())) {
            Some(file) => before.push(file),
            None => before,
        }
    }
}

/// The contents of a sequence of byte vectors.
pub open spec fn files_of(files: Seq<Vec<u8>>) -> Seq<Seq<u8>> {
    Seq::new(files.len(), |i: int| files[i]@)
}

/// Prepares the parts `rects` of the sheet and writes each as a PNG file.
/// Without a sheet there are no frames.
pub fn extract_frames(sheet: Option<&Bitmap>, rects: &Vec<FrameRect>) -> (files: Vec<Vec<u8>>)
    requires
        sheet matches Some(bitmap) ==> bitmap.wf(),
    ensures
        files_of(files@) == match sheet {
            Some(bitmap) => extracted(bitmap@, rects@),
            None => Seq::empty(),
        },
        files@.len() <= rects@.len(),
{
    let mut files: Vec<Vec<u8>> = Vec::new();
    assert(files_of(files@) =~= Seq::<Seq<u8>>::empty());
    let bitmap = match sheet {
        Some(bitmap) => bitmap,
        None => {
            return files;
        },
    };
    let mut index: usize = 0;
    while index < rects.len()
        invariant
            index <= rects.len(),
            bitmap.wf(),
            files@.len() <= index,
            files_of(files@) == extracted(bitmap@, rects@.take(index as int)),
        decreases rects.len() - index,
    {
        let frame = prepare_frame(bitmap, &rects[index]);
        let ghost before = files_of(files@);
        let ghost done = rects@.take(index as int);
        let ghost next = rects@.take(index + 1);
        assert(next.drop_last() =~= done);
        assert(next.last() == rects@[index as int]);
        match encode_png(&frame) {
            Some(file) => {
                files.push(file);
                assert(files_of(files@) =~= before.push(file@));
            },
            None => {},
        }
        index += 1;
    }
    assert(rects@.take(rects@.len() as int) =~= rects@);
    files
}

/// The frames of the two animations, ready to be shown.
pub struct SpriteSheet {
    /// Whether an image was decoded from the sheet's file.
    pub loaded: bool,
    /// The PNG files of the typing frames.
    pub typing_frames: Vec<Vec<u8>>,
    /// The PNG files of the idle frames.
    pub idle_frames: Vec<Vec<u8>>,
}

/// A sprite sheet as plain values.
#[verifier::ext_equal]
pub struct SpriteSheetView {
    pub loaded: bool,
    pub typing_frames: Seq<Seq<u8>>,
    pub idle_frames: Seq<Seq<u8>>,
}

impl View for SpriteSheet {
    type V = SpriteSheetView;

    open spec fn view(&self) -> SpriteSheetView {
        SpriteSheetView {
            loaded: self.loaded,
            typing_frames: files_of(self.typing_frames@),
            idle_frames: files_of(self.idle_frames@),
        }
    }
}

/// The image that the bytes of a file decode to, where it has four bytes
/// for each pixel.
pub open spec fn usable_image(file: Seq<u8>) -> Option<BitmapView> {
    match decoded_image(file) {
        Some(image) => if image.wf() {
            Some(image)
        } else {
            None
        },
        None => None,
    }
}

/// Whether `sheet` is what the bytes `file` of a sprite sheet give, where
/// `file` is `None` if the sheet's file could not be read: a sheet that is
/// loaded if and only if there is a file that decodes to an image, with
/// the frames of both animations extracted from that image, and without
/// frames otherwise.
pub open spec fn is_loaded_from(file: Option<Seq<u8>>, sheet: SpriteSheetView) -> bool {
    match file {
        Some(bytes) => match usable_image(bytes) {
            Some(image) => sheet == (SpriteSheetView {
                loaded: true,
                typing_frames: extracted(image, frame_rects(TYPING_FIRST_ROW)),
                idle_frames: extracted(image, frame_rects(IDLE_FIRST_ROW)),
            }),
            None => sheet == SpriteSheetView::empty(),
        },
        None => sheet == SpriteSheetView::empty(),
    }
}

impl SpriteSheetView {
    /// The sheet without an image: not loaded, no frames.
    pub open spec fn empty() -> SpriteSheetView {
        SpriteSheetView { loaded: false, typing_frames: Seq::empty(), idle_frames: Seq::empty() }
    }
}

/// The frame of an animation to show for a running frame number: none
/// where the animation has no frames, else the frames in a cycle.
pub open spec fn frame_for(frames: Seq<Seq<u8>>, frame_index: usize) -> Option<Seq<u8>> {
    if frames.len() == 0 {
        None
    } else {
        Some(frames[(frame_index as int) % (frames.len() as int)])
    }
}

impl SpriteSheet {
    /// The sheet without an image: not loaded, no frames.
    pub fn unavailable() -> (sheet: SpriteSheet)
        ensures
            sheet@ == SpriteSheetView::empty(),
    {
        let sheet = SpriteSheet {
            loaded: false,
            typing_frames: Vec::new(),
            idle_frames: Vec::new(),
        };
        assert(sheet@ =~= SpriteSheetView::empty());
        sheet
    }

    /// Builds the sprite sheet from the bytes of its file, or without
    /// them where the file could not be read. A missing or unreadable
    /// sheet gives a sheet without frames.
    pub fn load(file: Option<&[u8]>) -> (sheet: SpriteSheet)
        ensures
            is_loaded_from(
                match file {
                    Some(bytes) => Some(bytes@),
                    None => None,
                },
                sheet@,
            ),
    {
        let bytes = match file {
            Some(bytes) => bytes,
            None => {
                return SpriteSheet::unavailable();
            },
        };
        let image = match decode(bytes) {
            Some(image) => image,
            None => {
                return SpriteSheet::unavailable();
            },
        };
        let typing_frames = extract_frames(Some(&image), &typing_frame_rects());
        let idle_frames = extract_frames(Some(&image), &idle_frame_rects());
        SpriteSheet { loaded: true, typing_frames, idle_frames }
    }
}

/// Whether the sprite sheet was loaded.
pub fn is_loaded(sheet: &SpriteSheet) -> (loaded: bool)
    ensures
        loaded == sheet@.loaded,
{
    sheet.loaded
}

fn cycle_frame(frames: &Vec<Vec<u8>>, frame_index: usize) -> (frame: Option<&Vec<u8>>)
    ensures
        match frame {
            Some(file) => Some(file@),
            None => None,
        } == frame_for(files_of(frames@), frame_index),
{
    if frames.len() == 0 {
        return None;
    }
    let index = frame_index % frames.len();
    Some(&frames[index])
}

/// The PNG file of the typing frame for a running frame number, if the
/// sheet has typing frames.
pub fn get_typing_frame(sheet: &SpriteSheet, frame_index: usize) -> (frame: Option<&Vec<u8>>)
    ensures
        match frame {
            Some(file) => Some(file@),
            None => None,
        } == frame_for(sheet@.typing_frames, frame_index),
{
    cycle_frame(&sheet.typing_frames, frame_index)
}

/// The PNG file of the idle frame for a running frame number, if the
/// sheet has idle frames.
pub fn get_idle_frame(sheet: &SpriteSheet, frame_index: usize) -> (frame: Option<&Vec<u8>>)
    ensures
        match frame {
            Some(file) => Some(file@),
            None => None,
        } == frame_for(sheet@.idle_frames, frame_index),
{
    cycle_frame(&sheet.idle_frames, frame_index)
}

/// A sheet that is not loaded has no frame to show, whatever the frame
/// number.
pub proof fn lemma_unloaded_sheet_has_no_frames(
    file: Option<Seq<u8>>,
    sheet: SpriteSheetView,
    frame_index: usize,
)
    requires
        is_loaded_from(file, sheet),
        !sheet.loaded,
    ensures
        frame_for(sheet.typing_frames, frame_index) is None,
        frame_for(sheet.idle_frames, frame_index) is None,
{
}

/// The frames of an animation repeat in a cycle: a frame number and the
/// same number one cycle later show the same frame.
pub proof fn lemma_frames_cycle(frames: Seq<Seq<u8>>, frame_index: usize)
    requires
        frame_index + frames.len() <= usize::MAX,
    ensures
        frame_for(frames, (frame_index + frames.len()) as usize) == frame_for(frames, frame_index),
        frames.len() > 0 ==> frame_for(frames, frame_index) is Some,
{
    if frames.len() > 0 {
        lemma_mod_adds(frame_index as int, frames.len() as int, frames.len() as int);
        lemma_mod_self_0(frames.len() as int);
    }
}

} // verus!
