//! The key sprite sheet: one small picture for each digit and letter key,
//! laid out in a grid of ten columns.
//!
//! The first row holds the digits `0` to `9`, and the rows below it hold
//! the capital letters, ten to a row. A key is looked up by the capital of
//! its display string.

use crate::bitmap::crop;
use crate::bitmap::cut_out;
use crate::bitmap::encode_png;
use crate::bitmap::png_encoding;
use crate::bitmap::remove_background;
use crate::bitmap::without_background;
use crate::bitmap::Bitmap;
use crate::bitmap::BitmapView;
use crate::text::to_uppercase;
use crate::text::uppercase_of;
use vstd::prelude::*;
use vstd::string::*;

verus! {

/// Width of a key picture in pixels.
pub const KEY_FRAME_WIDTH: u32 = 64;

/// Height of a key picture in pixels.
pub const KEY_FRAME_HEIGHT: u32 = 64;

/// Number of key pictures in a row of the sheet.
pub const COLUMNS: u32 = 10;

/// Number of keys that have a picture: ten digits and twenty-six letters.
pub const KEY_COUNT: usize = 36;

/// The row and the column of the picture of a character: the digits in
/// the first row, then the capital letters ten to a row. No other
/// character has a picture.
pub open spec fn position_of(c: char) -> Option<(u32, u32)> {
    let code = c as u32;
    if '0' as u32 <= code <= '9' as u32 {
        Some((0u32, (code - '0' as u32) as u32))
    } else if 'A' as u32 <= code <= 'J' as u32 {
        Some((1u32, (code - 'A' as u32) as u32))
    } else if 'K' as u32 <= code <= 'T' as u32 {
        Some((2u32, (code - 'K' as u32) as u32))
    } else if 'U' as u32 <= code <= 'Z' as u32 {
        Some((3u32, (code - 'U' as u32) as u32))
    } else {
        None
    }
}

/// The row and the column of the picture of a key, by the first character
/// of the capital form of its display string.
pub open spec fn key_position(capitals: Seq<char>) -> Option<(u32, u32)> {
    if capitals.len() == 0 {
        None
    } else {
        position_of(capitals[0])
    }
}

/// The running number of the picture at a row and a column.
pub open spec fn slot_at(position: (u32, u32)) -> int {
    position.0 * COLUMNS + position.1
}

/// The row and the column of the picture of a character.
pub fn char_position(c: char) -> (position: Option<(u32, u32)>)
    ensures
        position == position_of(c),
        position matches Some(p) ==> p.0 <= 3 && p.1 < COLUMNS && slot_at(p) < KEY_COUNT,
{
    let code: u32 = c as u32;
    if code >= '0' as u32 && code <= '9' as u32 {
        Some((0, code - '0' as u32))
    } else if code >= 'A' as u32 && code <= 'J' as u32 {
        Some((1, code - 'A' as u32))
    } else if code >= 'K' as u32 && code <= 'T' as u32 {
        Some((2, code - 'K' as u32))
    } else if code >= 'U' as u32 && code <= 'Z' as u32 {
        Some((3, code - 'U' as u32))
    } else {
        None
    }
}

/// The row and the column of the picture of a key, from the capital form
/// of its display string.
pub fn position_in_capitals(capitals: &str) -> (position: Option<(u32, u32)>)
    ensures
        position == key_position(capitals@),
{
    if capitals.unicode_len() == 0 {
        None
    } else {
        char_position(capitals.get_char(0))
    }
}

/// The row and the column of the picture of a key in the sheet.
pub fn get_key_position(key: &str) -> (position: Option<(u32, u32)>)
    ensures
        position == key_position(uppercase_of(key@)),
{
    let capitals = to_uppercase(key);
    position_in_capitals(capitals.as_str())
}

/// Whether the sheet has the whole picture at a row and a column.
pub open spec fn has_picture(sheet: BitmapView, row: u32, col: u32) -> bool {
    col * KEY_FRAME_WIDTH + KEY_FRAME_WIDTH <= sheet.width && row * KEY_FRAME_HEIGHT
        + KEY_FRAME_HEIGHT <= sheet.height
}

/// The picture at a row and a column of the sheet, freed of its
/// background. Meant for a sheet that has the whole picture.
pub open spec fn picture_at(sheet: BitmapView, row: u32, col: u32) -> BitmapView {
    without_background(
        cut_out(
            sheet,
            (col * KEY_FRAME_WIDTH) as u32,
            (row * KEY_FRAME_HEIGHT) as u32,
            KEY_FRAME_WIDTH,
            KEY_FRAME_HEIGHT,
        ),
    )
}

/// The PNG file of the picture at a row and a column of the sheet: none
/// where the sheet does not have the whole picture, or no file is written
/// for it.
pub open spec fn picture_file(sheet: BitmapView, row: u32, col: u32) -> Option<Seq<u8>> {
    if has_picture(sheet, row, col) {
        png_encoding(picture_at(sheet, row, col))
    } else {
        None
    }
}

/// The contents of a byte vector that may be missing.
pub open spec fn file_of(file: Option<Vec<u8>>) -> Option<Seq<u8>> {
    match file {
        Some(bytes) => Some(bytes@),
        None => None,
    }
}

/// Cuts the picture at a row and a column out of the sheet, frees it of
/// its background and writes it as a PNG file.
pub fn extract_frame(sheet: &Bitmap, row: u32, col: u32) -> (file: Option<Vec<u8>>)
    requires
        sheet.wf(),
    ensures
        file_of(file) == picture_file(sheet@, row, col),
{
    let right: u64 = col as u64 * KEY_FRAME_WIDTH as u64 + KEY_FRAME_WIDTH as u64;
    let bottom: u64 = row as u64 * KEY_FRAME_HEIGHT as u64 + KEY_FRAME_HEIGHT as u64;
    if right > sheet.width as u64 || bottom > sheet.height as u64 {
        return None;
    }
    let cut = crop(
        sheet,
        col * KEY_FRAME_WIDTH,
        row * KEY_FRAME_HEIGHT,
        KEY_FRAME_WIDTH,
        KEY_FRAME_HEIGHT,
    );
    let keyed = remove_background(&cut);
    encode_png(&keyed)
}

/// The character of the key with the running number `slot`: the digits,
/// then the capital letters.
pub open spec fn key_of_slot(slot: int) -> char {
    if slot < 10 {
        (('0' as u32 + slot) as u32) as char
    } else {
        (('A' as u32 + slot - 10) as u32) as char
    }
}

/// The pictures of the keys, ready to be shown.
pub struct KeySprites {
    /// Whether an image was decoded from the sheet's file.
    pub loaded: bool,
    /// The PNG file of each key's picture, by the key's running number;
    /// `None` for a key without picture.
    pub frames: Vec<Option<Vec<u8>>>,
}

/// The pictures found in a sheet, by the running numbers of their keys.
pub open spec fn pictures_in(sheet: BitmapView) -> Seq<Option<Seq<u8>>> {
    Seq::new(
        KEY_COUNT as nat,
        |slot: int| picture_file(sheet, (slot / COLUMNS as int) as u32, (slot % COLUMNS as int) as u32),
    )
}

/// The contents of a sequence of files that may be missing.
pub open spec fn pictures_of(frames: Seq<Option<Vec<u8>>>) -> Seq<Option<Seq<u8>>> {
    Seq::new(frames.len(), |slot: int| file_of(frames[slot]))
}

impl KeySprites {
    /// The invariant of the pictures: there is a place for each key.
    pub open spec fn wf(&self) -> bool {
        self.frames@.len() == KEY_COUNT
    }
}

/// Extracts the pictures of all digit and letter keys from the sheet.
/// Without a sheet no key has a picture.
pub fn extract_all_key_frames(sheet: Option<&Bitmap>) -> (sprites: KeySprites)
    requires
        sheet matches Some(bitmap) ==> bitmap.wf(),
    ensures
        sprites.wf(),
        sprites.loaded == sheet is Some,
        pictures_of(sprites.frames@) == match sheet {
            Some(bitmap) => pictures_in(bitmap@),
            None => Seq::new(KEY_COUNT as nat, |slot: int| None::<Seq<u8>>),
        },
{
    let mut frames: Vec<Option<Vec<u8>>> = Vec::new();
    let mut slot: u32 = 0;
    while slot < KEY_COUNT as u32
        invariant
            slot <= KEY_COUNT,
            frames@.len() == slot,
            sheet matches Some(bitmap) ==> bitmap.wf(),
            forall|i: int|
                0 <= i < slot ==> file_of(#[trigger] frames@[i]) == match sheet {
                    Some(bitmap) => pictures_in(bitmap@)[i],
                    None => None,
                },
        decreases KEY_COUNT - slot,
    {
        let file = match sheet {
            Some(bitmap) => extract_frame(bitmap, slot / COLUMNS, slot % COLUMNS),
            None => None,
        };
        frames.push(file);
        slot += 1;
    }
    let sprites = KeySprites { loaded: sheet.is_some(), frames };
    assert(pictures_of(sprites.frames@) =~= match sheet {
        Some(bitmap) => pictures_in(bitmap@),
        None => Seq::new(KEY_COUNT as nat, |slot: int| None::<Seq<u8>>),
    });
    sprites
}

/// Whether the key sprite sheet was loaded.
pub fn is_loaded(sprites: &KeySprites) -> (loaded: bool)
    ensures
        loaded == sprites.loaded,
{
    sprites.loaded
}

/// The picture of the key whose display string has the capital form
/// `capitals`: that of a single digit or capital letter, where the sheet
/// had one.
pub open spec fn sprite_for(pictures: Seq<Option<Seq<u8>>>, capitals: Seq<char>) -> Option<Seq<u8>> {
    if capitals.len() == 1 {
        match position_of(capitals[0]) {
            Some(position) => pictures[slot_at(position)],
            None => None,
        }
    } else {
        None
    }
}

/// The picture of a key, from the capital form of its display string.
pub fn sprite_in_capitals<'a>(sprites: &'a KeySprites, capitals: &str) -> (file: Option<&'a Vec<u8>>)
    requires
        sprites.wf(),
    ensures
        match file {
            Some(bytes) => Some(bytes@),
            None => None,
        } == sprite_for(pictures_of(sprites.frames@), capitals@),
{
    if capitals.unicode_len() != 1 {
        return None;
    }
    match char_position(capitals.get_char(0)) {
        Some(position) => {
            let slot: usize = (position.0 * COLUMNS + position.1) as usize;
            sprites.frames[slot].as_ref()
        },
        None => None,
    }
}

/// The picture of a key as the bytes of a PNG file, if the key has one.
pub fn get_key_sprite<'a>(sprites: &'a KeySprites, key: &str) -> (file: Option<&'a Vec<u8>>)
    requires
        sprites.wf(),
    ensures
        match file {
            Some(bytes) => Some(bytes@),
            None => None,
        } == sprite_for(pictures_of(sprites.frames@), uppercase_of(key@)),
{
    let capitals = to_uppercase(key);
    sprite_in_capitals(sprites, capitals.as_str())
}

/// The width and the height of a key picture in pixels.
pub fn frame_dimensions() -> (size: (u32, u32))
    ensures
        size == (KEY_FRAME_WIDTH, KEY_FRAME_HEIGHT),
{
    (KEY_FRAME_WIDTH, KEY_FRAME_HEIGHT)
}

/// The running number of a key's picture is that of its place in the
/// grid, and no two keys share a place: the key of a place is found back
/// from the place.
pub proof fn lemma_key_places_are_distinct(c: char)
    requires
        position_of(c) is Some,
    ensures
        ({
            let place = position_of(c)->0;
            &&& 0 <= slot_at(place) < KEY_COUNT
            &&& key_of_slot(slot_at(place)) == c
            &&& place.0 == slot_at(place) / COLUMNS as int
            &&& place.1 == slot_at(place) % COLUMNS as int
        }),
{
}

} // verus!
