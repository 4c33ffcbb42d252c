//! Rectangles of terminal cells, and where the text and the sprite go in
//! them.

use ratatui::layout::Constraint;
use ratatui::layout::Layout;
use vstd::prelude::*;
use vstd::string::*;

verus! {

/// Rows that the big text takes.
pub const TEXT_ROWS: u16 = 4;

/// Columns that one character of the big text takes.
pub const GLYPH_COLUMNS: u16 = 4;

/// Rows that the sprite takes.
pub const IMAGE_ROWS: u16 = 10;

/// Columns that the sprite takes.
pub const IMAGE_COLUMNS: u16 = 20;

/// A rectangle of terminal cells.
#[derive(Debug, Clone, Copy, PartialEq, Eq, Structural)]
pub struct Rect {
    pub x: u16,
    pub y: u16,
    pub width: u16,
    pub height: u16,
}

impl Rect {
    /// The invariant of a rectangle: its right and bottom edges are
    /// coordinates too.
    pub open spec fn wf(self) -> bool {
        self.x + self.width <= u16::MAX && self.y + self.height <= u16::MAX
    }

    /// Whether `inner` lies within this rectangle.
    pub open spec fn contains(self, inner: Rect) -> bool {
        &&& self.x <= inner.x
        &&& inner.x + inner.width <= self.x + self.width
        &&& self.y <= inner.y
        &&& inner.y + inner.height <= self.y + self.height
    }

    /// The rectangle at `x` and `y` with the given width and height, cut
    /// to what fits into the coordinates.
    pub open spec fn clamped(x: u16, y: u16, width: u16, height: u16) -> Rect {
        Rect {
            x,
            y,
            width: if x + width > u16::MAX {
                (u16::MAX - x) as u16
            } else {
                width
            },
            height: if y + height > u16::MAX {
                (u16::MAX - y) as u16
            } else {
                height
            },
        }
    }

    /// Makes the rectangle at `x` and `y` with the given width and height,
    /// cut to what fits into the coordinates.
    pub fn new(x: u16, y: u16, width: u16, height: u16) -> (rect: Rect)
        ensures
            rect == Rect::clamped(x, y, width, height),
            rect.wf(),
    {
        Rect {
            x,
            y,
            width: if width > u16::MAX - x {
                u16::MAX - x
            } else {
                width
            },
            height: if height > u16::MAX - y {
                u16::MAX - y
            } else {
                height
            },
        }
    }

    /// Whether the right and bottom edges of the rectangle are
    /// coordinates.
    pub fn is_valid(&self) -> (valid: bool)
        ensures
            valid == self.wf(),
    {
        self.width <= u16::MAX - self.x && self.height <= u16::MAX - self.y
    }
}

/// What `a` has more than `b`, and nothing where it has no more.
pub open spec fn excess(a: u16, b: u16) -> u16 {
    if a > b {
        (a - b) as u16
    } else {
        0
    }
}

/// The smaller of two numbers.
pub open spec fn least(a: int, b: int) -> int {
    if a < b {
        a
    } else {
        b
    }
}

/// The band in which text and sprite are drawn: as wide as the area, as
/// high as both together or as the area if that is less, and in the middle
/// of the area from top to bottom.
pub open spec fn content_band(area: Rect) -> Rect {
    Rect {
        x: area.x,
        y: (area.y + excess(area.height, (TEXT_ROWS + IMAGE_ROWS) as u16) / 2) as u16,
        width: area.width,
        height: least(area.height as int, TEXT_ROWS + IMAGE_ROWS) as u16,
    }
}

/// The band in which text and sprite are drawn.
pub fn content_area(area: Rect) -> (band: Rect)
    requires
        area.wf(),
    ensures
        band == content_band(area),
        band.wf(),
        area.contains(band),
{
    let total: u16 = TEXT_ROWS + IMAGE_ROWS;
    let pad: u16 = area.height.saturating_sub(total) / 2;
    Rect {
        x: area.x,
        y: area.y + pad,
        width: area.width,
        height: if total < area.height {
            total
        } else {
            area.height
        },
    }
}

/// What a row of a vertical layout asks for.
#[derive(Debug, Clone, Copy, PartialEq, Eq, Structural)]
pub enum RowRule {
    /// The row is to have this many rows.
    Length(u16),
    /// The row is to have at least this many rows, and what is left over.
    Min(u16),
}

/// Whether `row` spans the columns of `area` and lies within its rows.
pub open spec fn row_in(row: Rect, area: Rect) -> bool {
    &&& row.x == area.x
    &&& row.width == area.width
    &&& area.y <= row.y
    &&& row.y + row.height <= area.y + area.height
}

/// Whether `upper` ends where `lower` starts, or above.
pub open spec fn above(upper: Rect, lower: Rect) -> bool {
    upper.y + upper.height <= lower.y
}

/// `Layout::split` of `ratatui`, for the vertical layout with one
/// constraint for each of `rules` (`Constraint::Length` or
/// `Constraint::Min`), on the given area: the rectangles that the layout
/// engine hands back, one for each rule. Each starts in the area's first
/// column and is as wide as the area, and each lies within the area's
/// rows, which the engine requires of every edge. Where within the area
/// the engine puts a row, how high it makes it, and in which order the
/// rows come, it settles by preference; nothing is claimed of that. The
/// engine stops the program where what it requires cannot be met; it
/// requires only that each row lies within the area and ends no higher
/// than it starts, which can be done on every area.
#[verifier::external_body]
pub(crate) fn split_vertical(area: Rect, rules: &Vec<RowRule>) -> (rows: Vec<Rect>)
    ensures
        rows@.len() == rules@.len(),
        forall|i: int| 0 <= i < rows@.len() ==> row_in(#[trigger] rows@[i], area),
{
    let constraints: Vec<Constraint> = rules.iter().map(|rule| match rule {
        RowRule::Length(rows) => Constraint::Length(*rows),
        RowRule::Min(rows) => Constraint::Min(*rows),
    }).collect();
    let outer =
        ratatui::layout::Rect { x: area.x, y: area.y, width: area.width, height: area.height };
    let parts = Layout::vertical(constraints).split(outer);
    parts.iter().map(|p| Rect { x: p.x, y: p.y, width: p.width, height: p.height }).collect()
}

/// The regions of the text and of the sprite within an area, as the
/// layout engine divides the content band into a row of `TEXT_ROWS` and a
/// row of `IMAGE_ROWS`: what `accept_rows` makes of the rows that the
/// engine hands back. Regions are given when the engine puts the row of
/// the text above the row of the sprite. Both then lie within the content
/// band, span its columns, and do not overlap.
pub fn frame_regions(area: Rect) -> (regions: Option<(Rect, Rect)>)
    requires
        area.wf(),
    ensures
        exists|rows: Seq<Rect>|
            rows.len() == 2 && row_in(rows[0], content_band(area)) && row_in(
                rows[1],
                content_band(area),
            ) && regions == #[trigger] accepted_rows(rows, content_band(area)),
        regions matches Some(rows) ==> {
            &&& row_in(rows.0, content_band(area))
            &&& row_in(rows.1, content_band(area))
            &&& above(rows.0, rows.1)
            &&& rows.0.wf()
            &&& rows.1.wf()
            &&& area.contains(rows.0)
            &&& area.contains(rows.1)
        },
{
    let band = content_area(area);
    let mut rules: Vec<RowRule> = Vec::new();
    rules.push(RowRule::Length(TEXT_ROWS));
    rules.push(RowRule::Length(IMAGE_ROWS));
    let rows = split_vertical(band, &rules);
    let regions = accept_rows(&rows, band);
    assert(rows@.len() == 2 && row_in(rows@[0], band) && row_in(rows@[1], band));
    assert(regions == accepted_rows(rows@, band));
    regions
}

/// What is made of the rows that a layout engine hands back for the
/// content band: the first as the region of the text and the second as
/// the region of the sprite, where there are two rows, both span the
/// columns of the band and lie within its rows, and the first ends where
/// the second starts, or above; and nothing else.
pub open spec fn accepted_rows(rows: Seq<Rect>, band: Rect) -> Option<(Rect, Rect)> {
    if rows.len() == 2 && row_in(rows[0], band) && row_in(rows[1], band) && above(
        rows[0],
        rows[1],
    ) {
        Some((rows[0], rows[1]))
    } else {
        None
    }
}

/// Whether `row` spans the columns of `area` and lies within its rows.
pub fn is_row_in(row: Rect, area: Rect) -> (inside: bool)
    ensures
        inside == row_in(row, area),
{
    row.x == area.x && row.width == area.width && area.y <= row.y && row.y as u32
        + row.height as u32 <= area.y as u32 + area.height as u32
}

/// Whether `upper` ends where `lower` starts, or above.
pub fn is_above(upper: Rect, lower: Rect) -> (over: bool)
    ensures
        over == above(upper, lower),
{
    upper.y as u32 + upper.height as u32 <= lower.y as u32
}

/// Takes the rows that a layout engine hands back for the content band as
/// the regions of the text and of the sprite, unless they are not two, one
/// of them leaves the band, or the text does not come above the sprite.
pub fn accept_rows(rows: &Vec<Rect>, band: Rect) -> (regions: Option<(Rect, Rect)>)
    ensures
        regions == accepted_rows(rows@, band),
{
    if rows.len() != 2 {
        return None;
    }
    let text = rows[0];
    let sprite = rows[1];
    if is_row_in(text, band) && is_row_in(sprite, band) && is_above(text, sprite) {
        Some((text, sprite))
    } else {
        None
    }
}

/// The rows in which the text is drawn within its region: the region's
/// width, the text's height or the region's if that is less, in the
/// middle of the region from top to bottom.
pub open spec fn text_rows_of(area: Rect) -> Rect {
    Rect {
        x: area.x,
        y: (area.y + excess(area.height, TEXT_ROWS) / 2) as u16,
        width: area.width,
        height: least(area.height as int, TEXT_ROWS as int) as u16,
    }
}

/// The number of characters of the big text that fit side by side.
pub open spec fn max_chars(area: Rect) -> int {
    area.width as int / GLYPH_COLUMNS as int
}

/// Whether a text of `total` characters is drawn whole: it fits, or
/// nothing fits.
pub open spec fn text_fits(area: Rect, total: int) -> bool {
    total <= max_chars(area) || max_chars(area) == 0
}

/// The number of characters of a text of `total` characters that are
/// drawn.
pub open spec fn displayed_chars(area: Rect, total: int) -> int {
    least(total, max_chars(area))
}

/// The part of the text that is drawn: all of it where it fits, else as
/// many of its last characters as fit.
pub open spec fn shown_text(area: Rect, text: Seq<char>) -> Seq<char> {
    if text_fits(area, text.len() as int) {
        text
    } else {
        text.subrange(text.len() - max_chars(area), text.len() as int)
    }
}

/// The cells of the newest characters: none where the latest key brought
/// no character or no character is drawn; else the last characters of
/// what is drawn, as many as the key brought and are drawn. Text that
/// fits is centred, so its last character ends where the centred text
/// ends; text that does not fit is set to the right edge.
pub open spec fn new_chars_rect(area: Rect, total: int, new_char_count: int) -> Option<Rect> {
    let displayed = displayed_chars(area, total);
    if new_char_count > 0 && displayed > 0 {
        let rows = text_rows_of(area);
        let new_width = least(new_char_count, displayed) * GLYPH_COLUMNS;
        let text_width = displayed * GLYPH_COLUMNS;
        let text_end = if text_fits(area, total) {
            rows.x + (rows.width - text_width) / 2 + text_width
        } else {
            rows.x + rows.width
        };
        Some(
            Rect {
                x: (text_end - new_width) as u16,
                y: rows.y,
                width: new_width as u16,
                height: rows.height,
            },
        )
    } else {
        None
    }
}

/// How a text is drawn in its region.
pub struct TextDisplay {
    /// The rows in which the text is drawn.
    pub text_area: Rect,
    /// The part of the text that is drawn.
    pub shown: String,
    /// Whether the text is centred; else it is set to the right edge.
    pub centered: bool,
    /// The cells of the newest characters, if any are drawn.
    pub new_char_area: Option<Rect>,
}

/// How a text is drawn, as plain values.
#[verifier::ext_equal]
pub struct TextDisplayView {
    pub text_area: Rect,
    pub shown: Seq<char>,
    pub centered: bool,
    pub new_char_area: Option<Rect>,
}

impl View for TextDisplay {
    type V = TextDisplayView;

    open spec fn view(&self) -> TextDisplayView {
        TextDisplayView {
            text_area: self.text_area,
            shown: self.shown@,
            centered: self.centered,
            new_char_area: self.new_char_area,
        }
    }
}

/// How `text` is drawn in the region `area`, where the latest key brought
/// `new_char_count` characters.
pub open spec fn text_display_of(area: Rect, text: Seq<char>, new_char_count: usize) -> TextDisplayView {
    TextDisplayView {
        text_area: text_rows_of(area),
        shown: shown_text(area, text),
        centered: text_fits(area, text.len() as int),
        new_char_area: new_chars_rect(area, text.len() as int, new_char_count as int),
    }
}

/// Lays out `text` in the region `area`. `new_char_count` is the number of
/// characters that the latest key brought.
pub fn draw_text_display(area: Rect, text: &str, new_char_count: usize) -> (display: TextDisplay)
    requires
        area.wf(),
    ensures
        display@ == text_display_of(area, text@, new_char_count),
        display.text_area.wf(),
        area.contains(display.text_area),
        display.new_char_area matches Some(cells) ==> cells.wf() && display.text_area.contains(
            cells,
        ),
{
    let text_area = Rect {
        x: area.x,
        y: area.y + area.height.saturating_sub(TEXT_ROWS) / 2,
        width: area.width,
        height: if TEXT_ROWS < area.height {
            TEXT_ROWS
        } else {
            area.height
        },
    };
    let max_chars: usize = (area.width / GLYPH_COLUMNS) as usize;
    let total_chars: usize = text.unicode_len();
    let displayed: usize = if total_chars < max_chars {
        total_chars
    } else {
        max_chars
    };
    let fits = total_chars <= max_chars || max_chars == 0;
    let shown = if fits {
        String::from_str(text)
    } else {
        String::from_str(text.substring_char(total_chars - max_chars, total_chars))
    };
    let new_char_area = if new_char_count > 0 && displayed > 0 {
        let new_chars: usize = if new_char_count < displayed {
            new_char_count
        } else {
            displayed
        };
        let new_width: u16 = new_chars as u16 * GLYPH_COLUMNS;
        let text_width: u16 = displayed as u16 * GLYPH_COLUMNS;
        let text_end: u16 = if fits {
            text_area.x + (text_area.width - text_width) / 2 + text_width
        } else {
            text_area.x + text_area.width
        };
        Some(Rect { x: text_end - new_width, y: text_area.y, width: new_width, height: text_area.height })
    } else {
        None
    };
    TextDisplay { text_area, shown, centered: fits, new_char_area }
}

/// The row and the column of the sprite's corner in its region: such that
/// the sprite sits in the middle, or at the region's corner where the
/// region is smaller than the sprite.
pub open spec fn sprite_corner(area: Rect) -> (u16, u16) {
    (
        (area.y + excess(area.height, IMAGE_ROWS) / 2) as u16,
        (area.x + excess(area.width, IMAGE_COLUMNS) / 2) as u16,
    )
}

/// The row and the column at which the sprite is drawn in its region.
pub fn sprite_position(area: Rect) -> (corner: (u16, u16))
    requires
        area.wf(),
    ensures
        corner == sprite_corner(area),
        area.y <= corner.0 <= area.y + area.height,
        area.x <= corner.1 <= area.x + area.width,
        area.width >= IMAGE_COLUMNS ==> corner.1 + IMAGE_COLUMNS <= area.x + area.width,
        area.height >= IMAGE_ROWS ==> corner.0 + IMAGE_ROWS <= area.y + area.height,
{
    let col: u16 = area.x + area.width.saturating_sub(IMAGE_COLUMNS) / 2;
    let row: u16 = area.y + area.height.saturating_sub(IMAGE_ROWS) / 2;
    (row, col)
}

/// The part of a rectangle of the given size at `x` and `y` within
/// `parent` that `parent` holds, in the coordinates of the screen; none
/// where the corner lies outside `parent`.
pub open spec fn clipped(x: u16, y: u16, width: u16, height: u16, parent: Rect) -> Option<Rect> {
    if x >= parent.width || y >= parent.height {
        None
    } else {
        Some(
            Rect {
                x: (parent.x + x) as u16,
                y: (parent.y + y) as u16,
                width: least(width as int, parent.width - x) as u16,
                height: least(height as int, parent.height - y) as u16,
            },
        )
    }
}

/// Places a rectangle of the given size at `x` and `y` within `parent`,
/// cut to what `parent` holds of it.
pub fn safe_rect(x: u16, y: u16, width: u16, height: u16, parent: Rect) -> (rect: Option<Rect>)
    requires
        parent.wf(),
    ensures
        rect == clipped(x, y, width, height, parent),
        rect matches Some(r) ==> r.wf() && parent.contains(r),
{
    if x >= parent.width || y >= parent.height {
        return None;
    }
    Some(
        Rect {
            x: parent.x + x,
            y: parent.y + y,
            width: if width < parent.width - x {
                width
            } else {
                parent.width - x
            },
            height: if height < parent.height - y {
                height
            } else {
                parent.height - y
            },
        },
    )
}

} // verus!
