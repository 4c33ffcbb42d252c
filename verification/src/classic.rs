//! The plain screen: a centred column with bubbles that drift up behind
//! it, for terminals that show the text sprite.

use crate::layout::clipped;
use crate::layout::above;
use crate::layout::excess;
use crate::layout::is_above;
use crate::layout::is_row_in;
use crate::layout::least;
use crate::layout::row_in;
use crate::layout::safe_rect;
use crate::layout::split_vertical;
use crate::layout::Rect;
use crate::layout::RowRule;
use vstd::arithmetic::div_mod::lemma_add_mod_noop;
use vstd::prelude::*;

verus! {

/// Most columns that the centred column takes.
pub const CONTENT_COLUMNS: u16 = 40;

/// Most rows that the centred column takes.
pub const CONTENT_ROWS: u16 = 24;

/// Columns that stay free beside the centred column, both sides together.
pub const SIDE_MARGIN: u16 = 4;

/// Rows that stay free above and below the centred column, together.
pub const TOP_MARGIN: u16 = 2;

/// Number of bubbles.
pub const BUBBLE_COUNT: usize = 10;

/// Where the bubbles start, as column and row within the screen.
pub const BUBBLES: [(u16, u16); 10] = [
    (5, 3),
    (8, 8),
    (3, 13),
    (10, 18),
    (30, 4),
    (35, 9),
    (28, 14),
    (33, 19),
    (18, 2),
    (22, 20),
];

/// The shapes that a bubble goes through.
pub const BUBBLE_GLYPHS: [&'static str; 5] = ["○", "◯", "◌", "•", "∘"];

/// Ticks in which a bubble rises by one row.
pub const RISE_TICKS: u64 = 30;

/// Ticks in which a bubble keeps its shape.
pub const SHAPE_TICKS: u64 = 15;

/// Rows after which the rise of a bubble starts over.
pub const RISE_ROWS: u16 = 25;

/// A bubble on the screen.
#[derive(Debug, Clone, Copy, PartialEq, Eq, Structural)]
pub struct Bubble {
    /// The cell of the bubble.
    pub cell: Rect,
    /// The shape of the bubble, as an index into `BUBBLE_GLYPHS`.
    pub glyph: usize,
    /// Whether the bubble has the tint of the bubbles; else it is white.
    pub tinted: bool,
}

/// The centred column of a screen: as wide and as high as the screen
/// allows within its margins, up to `CONTENT_COLUMNS` by `CONTENT_ROWS`,
/// in the middle of the screen.
pub open spec fn column_of(area: Rect) -> Rect {
    let width = least(CONTENT_COLUMNS as int, excess(area.width, SIDE_MARGIN) as int);
    let height = least(CONTENT_ROWS as int, excess(area.height, TOP_MARGIN) as int);
    Rect {
        x: (area.x + (area.width - width) / 2) as u16,
        y: (area.y + (area.height - height) / 2) as u16,
        width: width as u16,
        height: height as u16,
    }
}

/// The centred column of a screen.
pub fn classic_content(area: Rect) -> (column: Rect)
    requires
        area.wf(),
    ensures
        column == column_of(area),
        column.wf(),
        area.contains(column),
{
    let free_width: u16 = area.width.saturating_sub(SIDE_MARGIN);
    let free_height: u16 = area.height.saturating_sub(TOP_MARGIN);
    let width: u16 = if CONTENT_COLUMNS < free_width {
        CONTENT_COLUMNS
    } else {
        free_width
    };
    let height: u16 = if CONTENT_ROWS < free_height {
        CONTENT_ROWS
    } else {
        free_height
    };
    Rect {
        x: area.x + (area.width - width) / 2,
        y: area.y + (area.height - height) / 2,
        width,
        height,
    }
}

/// Rows of the time bubble.
pub const TIME_ROWS: u16 = 3;

/// Rows of the text sprite.
pub const DOG_ROWS: u16 = 11;

/// Rows of the box that shows the latest key.
pub const KEY_ROWS: u16 = 7;

/// Rows that stay free between two parts of the centred column.
pub const GAP_ROWS: u16 = 1;

/// Number of rows into which the centred column is divided: the three
/// parts, the two gaps between them, and what is left below.
pub const COLUMN_PARTS: usize = 6;

/// The parts of the centred column, top to bottom.
#[derive(Debug, Clone, Copy, PartialEq, Eq, Structural)]
pub struct ClassicRegions {
    /// Where the time bubble goes.
    pub time: Rect,
    /// Where the text sprite goes.
    pub sprite: Rect,
    /// Where the box with the latest key goes.
    pub key: Rect,
}

/// What is made of the rows that a layout engine hands back for the
/// centred column: the first, third and fifth as the parts of the column,
/// where there are six rows, these three span the columns of the column
/// and lie within its rows, and they come in this order from top to
/// bottom without overlap; and nothing else.
pub open spec fn accepted_parts(rows: Seq<Rect>, column: Rect) -> Option<ClassicRegions> {
    if rows.len() == COLUMN_PARTS && row_in(rows[0], column) && row_in(rows[2], column) && row_in(
        rows[4],
        column,
    ) && above(rows[0], rows[2]) && above(rows[2], rows[4]) {
        Some(ClassicRegions { time: rows[0], sprite: rows[2], key: rows[4] })
    } else {
        None
    }
}

/// Takes the rows that a layout engine hands back for the centred column
/// as the parts of the column, unless they are not six, one of the parts
/// leaves the column, or the parts do not come in their order.
pub fn accept_parts(rows: &Vec<Rect>, column: Rect) -> (regions: Option<ClassicRegions>)
    ensures
        regions == accepted_parts(rows@, column),
{
    if rows.len() != COLUMN_PARTS {
        return None;
    }
    let time = rows[0];
    let sprite = rows[2];
    let key = rows[4];
    if is_row_in(time, column) && is_row_in(sprite, column) && is_row_in(key, column) && is_above(
        time,
        sprite,
    ) && is_above(sprite, key) {
        Some(ClassicRegions { time, sprite, key })
    } else {
        None
    }
}

/// The parts of the plain screen within an area, as the layout engine
/// divides the centred column into the time bubble, a gap, the sprite, a
/// gap, the key box and what is left: what `accept_parts` makes of the
/// rows that the engine hands back. Parts are given when the
/// engine puts them in their order. All three then lie within the centred
/// column, span its columns, and do not overlap.
pub fn classic_regions(area: Rect) -> (regions: Option<ClassicRegions>)
    requires
        area.wf(),
    ensures
        exists|rows: Seq<Rect>|
            rows.len() == COLUMN_PARTS && (forall|i: int|
                0 <= i < rows.len() ==> row_in(#[trigger] rows[i], column_of(area))) && regions
                == #[trigger] accepted_parts(rows, column_of(area)),
        regions matches Some(parts) ==> {
            &&& row_in(parts.time, column_of(area))
            &&& row_in(parts.sprite, column_of(area))
            &&& row_in(parts.key, column_of(area))
            &&& above(parts.time, parts.sprite)
            &&& above(parts.sprite, parts.key)
            &&& parts.time.wf() && parts.sprite.wf() && parts.key.wf()
            &&& area.contains(parts.time) && area.contains(parts.sprite) && area.contains(
                parts.key,
            )
        },
{
    let column = classic_content(area);
    let mut rules: Vec<RowRule> = Vec::new();
    rules.push(RowRule::Length(TIME_ROWS));
    rules.push(RowRule::Length(GAP_ROWS));
    rules.push(RowRule::Length(DOG_ROWS));
    rules.push(RowRule::Length(GAP_ROWS));
    rules.push(RowRule::Length(KEY_ROWS));
    rules.push(RowRule::Min(0));
    let rows = split_vertical(column, &rules);
    let regions = accept_parts(&rows, column);
    assert(regions == accepted_parts(rows@, column));
    regions
}

/// The rows that a bubble has risen after `frame_count` ticks: one row
/// every `RISE_TICKS` ticks, starting over after `RISE_ROWS` rows. The
/// count of rows is kept in sixteen bits.
pub open spec fn rise_of(frame_count: u64) -> u16 {
    (((frame_count as int / RISE_TICKS as int) % 0x1_0000) % (RISE_ROWS as int)) as u16
}

/// The row of a bubble that started in row `base_y`, on a screen of
/// `height` rows: its start less its rise, and once it has risen past the
/// top, the bottom of the screen less what it has risen beyond.
pub open spec fn bubble_row(base_y: u16, frame_count: u64, height: u16) -> u16 {
    let rise = rise_of(frame_count);
    if base_y > rise {
        (base_y - rise) as u16
    } else {
        excess(height, (rise - base_y) as u16)
    }
}

/// The shape of the bubble with the running number `index` after
/// `frame_count` ticks: the shapes in turn, each kept for `SHAPE_TICKS`
/// ticks, and each bubble one shape ahead of the one before it.
pub open spec fn bubble_glyph(index: usize, frame_count: u64) -> usize {
    ((index as int + frame_count as int / SHAPE_TICKS as int) % 5) as usize
}

/// The bubble with the running number `index` after `frame_count` ticks
/// on the screen `area`; none where the bubble lies outside the screen.
pub open spec fn bubble_of(index: usize, frame_count: u64, area: Rect) -> Option<Bubble> {
    let (base_x, base_y) = BUBBLES[index as int];
    match clipped(base_x, bubble_row(base_y, frame_count, area.height), 1, 1, area) {
        Some(cell) => Some(
            Bubble { cell, glyph: bubble_glyph(index, frame_count), tinted: index % 2 == 0 },
        ),
        None => None,
    }
}

/// The bubble with the running number `index` after `frame_count` ticks
/// on the screen `area`, if it lies on the screen.
pub fn bubble_at(index: usize, frame_count: u64, area: Rect) -> (bubble: Option<Bubble>)
    requires
        index < BUBBLE_COUNT,
        area.wf(),
    ensures
        bubble == bubble_of(index, frame_count, area),
        bubble matches Some(b) ==> b.cell.wf() && area.contains(b.cell) && b.cell.width == 1
            && b.cell.height == 1 && b.glyph < 5,
{
    let base = BUBBLES[index];
    let base_x: u16 = base.0;
    let base_y: u16 = base.1;
    let rise: u16 = (((frame_count / RISE_TICKS) % 0x1_0000) as u16) % RISE_ROWS;
    let y: u16 = if base_y > rise {
        base_y - rise
    } else {
        area.height.saturating_sub(rise - base_y)
    };
    let glyph: usize = (index % 5 + ((frame_count / SHAPE_TICKS) % 5) as usize) % 5;
    assert(glyph == bubble_glyph(index, frame_count)) by {
        lemma_add_mod_noop(index as int, (frame_count / SHAPE_TICKS) as int, 5);
    }
    match safe_rect(base_x, y, 1, 1, area) {
        Some(cell) => Some(Bubble { cell, glyph, tinted: index % 2 == 0 }),
        None => None,
    }
}

/// The column at which something `width` columns wide starts so as to
/// sit in the middle of `area`; the left edge of `area` where `area` is
/// narrower.
pub open spec fn middle_column(area: Rect, width: u16) -> u16 {
    (area.x + excess(area.width, width) / 2) as u16
}

/// The column at which something `width` columns wide starts so as to
/// sit in the middle of `area`.
pub fn centered_column(area: Rect, width: u16) -> (column: u16)
    requires
        area.wf(),
    ensures
        column == middle_column(area, width),
        area.x <= column <= area.x + area.width,
        width <= area.width ==> column + width <= area.x + area.width,
{
    area.x + area.width.saturating_sub(width) / 2
}

/// The cells of the line with the running number `line` of a block of
/// lines, each `width` columns wide, that starts at the top of `area` and
/// sits in the middle of it from left to right: one row high, and cut to
/// what fits into the coordinates. None where the line's row is no
/// coordinate.
pub open spec fn line_of(area: Rect, width: u16, line: u16) -> Option<Rect> {
    if area.y + line <= u16::MAX {
        Some(Rect::clamped(middle_column(area, width), (area.y + line) as u16, width, 1))
    } else {
        None
    }
}

/// The cells of one line of a block of lines in the middle of `area`.
pub fn line_rect(area: Rect, width: u16, line: u16) -> (cells: Option<Rect>)
    requires
        area.wf(),
    ensures
        cells == line_of(area, width, line),
        cells matches Some(r) ==> r.wf(),
        cells matches Some(r) ==> (width <= area.width && line < area.height ==> area.contains(r)
            && r.width == width && r.height == 1),
{
    if line > u16::MAX - area.y {
        return None;
    }
    Some(Rect::new(centered_column(area, width), area.y + line, width, 1))
}

/// The cells of the rows of a text sprite of `rows` rows, each `width`
/// columns wide, in `area`: row by row from the top of `area`, in the
/// middle from left to right, no wider than `area`, and only the rows that
/// `area` has room for.
pub open spec fn sprite_cells_of(area: Rect, width: u16, rows: usize) -> Seq<Rect> {
    Seq::new(
        least(rows as int, area.height as int) as nat,
        |row: int|
            Rect {
                x: middle_column(area, width),
                y: (area.y + row) as u16,
                width: least(width as int, area.width as int) as u16,
                height: 1,
            },
    )
}

/// The cells of the rows of a text sprite in `area`.
pub fn sprite_cells(area: Rect, width: u16, rows: usize) -> (cells: Vec<Rect>)
    requires
        area.wf(),
    ensures
        cells@ == sprite_cells_of(area, width, rows),
        forall|row: int| 0 <= row < cells@.len() ==> (#[trigger] cells@[row]).wf() && area.contains(
            cells@[row],
        ),
{
    let x: u16 = centered_column(area, width);
    let shown_width: u16 = if width < area.width {
        width
    } else {
        area.width
    };
    let mut cells: Vec<Rect> = Vec::new();
    let mut row: u16 = 0;
    while row < area.height && (row as usize) < rows
        invariant
            area.wf(),
            row <= area.height,
            row <= rows,
            x == middle_column(area, width),
            shown_width == least(width as int, area.width as int),
            x + shown_width <= area.x + area.width,
            area.x <= x,
            cells@.len() == row,
            forall|r: int|
                0 <= r < row ==> #[trigger] cells@[r] == (Rect {
                    x,
                    y: (area.y + r) as u16,
                    width: shown_width,
                    height: 1,
                }),
        decreases area.height - row,
    {
        cells.push(Rect { x, y: area.y + row, width: shown_width, height: 1 });
        row += 1;
    }
    assert(cells@ =~= sprite_cells_of(area, width, rows));
    cells
}

/// The bubbles stay on the screen: a bubble is shown in one cell inside
/// the screen or not at all, and it is shown whenever its start column and
/// its row lie on the screen.
pub proof fn lemma_bubbles_stay_on_screen(index: usize, frame_count: u64, area: Rect)
    requires
        index < BUBBLE_COUNT,
        area.wf(),
    ensures
        bubble_of(index, frame_count, area) matches Some(b) ==> area.contains(b.cell),
        bubble_of(index, frame_count, area) is Some <==> (BUBBLES[index as int].0 < area.width
            && bubble_row(BUBBLES[index as int].1, frame_count, area.height) < area.height),
{
}

} // verus!
