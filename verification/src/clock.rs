//! The block clock: a time rendered as rows of digit bitmaps, then slanted.
use vstd::prelude::*;

use crate::text::{push_repeat, repeat_char, string_push};

verus! {

/// The character that draws a lit cell.
pub const CLOCK_CHAR: char = '\u{2571}';

/// Width of one digit bitmap, in cells.
pub const DIGIT_WIDTH: usize = 6;

/// Height of every bitmap, in rows.
pub const DIGIT_HEIGHT: usize = 7;

/// Blank cells between the two digits of the hours, and of the minutes.
pub const GAP_DIGIT: usize = 2;

/// Blank cells on each side of the colon.
pub const GAP_COLON: usize = 2;

/// Width of the colon bitmap, in cells.
pub const COLON_WIDTH: usize = 2;

/// The 6x7 bitmap of decimal digit `d` (0 to 9): 1 marks a lit cell, 0 a blank one.
pub open spec fn glyph(d: int) -> Seq<Seq<u8>> {
    if d == 0 {
        seq![
            seq![1u8, 1, 1, 1, 1, 1],
            seq![1u8, 1, 0, 0, 1, 1],
            seq![1u8, 1, 0, 0, 1, 1],
            seq![1u8, 1, 0, 0, 1, 1],
            seq![1u8, 1, 0, 0, 1, 1],
            seq![1u8, 1, 0, 0, 1, 1],
            seq![1u8, 1, 1, 1, 1, 1],
        ]
    } else if d == 1 {
        seq![
            seq![1u8, 1, 1, 1, 0, 0],
            seq![0u8, 0, 1, 1, 0, 0],
            seq![0u8, 0, 1, 1, 0, 0],
            seq![0u8, 0, 1, 1, 0, 0],
            seq![0u8, 0, 1, 1, 0, 0],
            seq![0u8, 0, 1, 1, 0, 0],
            seq![1u8, 1, 1, 1, 1, 1],
        ]
    } else if d == 2 {
        seq![
            seq![1u8, 1, 1, 1, 1, 1],
            seq![0u8, 0, 0, 0, 1, 1],
            seq![0u8, 0, 0, 0, 1, 1],
            seq![1u8, 1, 1, 1, 1, 1],
            seq![1u8, 1, 0, 0, 0, 0],
            seq![1u8, 1, 0, 0, 0, 0],
            seq![1u8, 1, 1, 1, 1, 1],
        ]
    } else if d == 3 {
        seq![
            seq![1u8, 1, 1, 1, 1, 1],
            seq![0u8, 0, 0, 0, 1, 1],
            seq![0u8, 0, 0, 0, 1, 1],
            seq![1u8, 1, 1, 1, 1, 1],
            seq![0u8, 0, 0, 0, 1, 1],
            seq![0u8, 0, 0, 0, 1, 1],
            seq![1u8, 1, 1, 1, 1, 1],
        ]
    } else if d == 4 {
        seq![
            seq![1u8, 1, 0, 0, 1, 1],
            seq![1u8, 1, 0, 0, 1, 1],
            seq![1u8, 1, 0, 0, 1, 1],
            seq![1u8, 1, 1, 1, 1, 1],
            seq![0u8, 0, 0, 0, 1, 1],
            seq![0u8, 0, 0, 0, 1, 1],
            seq![0u8, 0, 0, 0, 1, 1],
        ]
    } else if d == 5 {
        seq![
            seq![1u8, 1, 1, 1, 1, 1],
            seq![1u8, 1, 0, 0, 0, 0],
            seq![1u8, 1, 0, 0, 0, 0],
            seq![1u8, 1, 1, 1, 1, 1],
            seq![0u8, 0, 0, 0, 1, 1],
            seq![0u8, 0, 0, 0, 1, 1],
            seq![1u8, 1, 1, 1, 1, 1],
        ]
    } else if d == 6 {
        seq![
            seq![1u8, 1, 1, 1, 1, 1],
            seq![1u8, 1, 0, 0, 0, 0],
            seq![1u8, 1, 0, 0, 0, 0],
            seq![1u8, 1, 1, 1, 1, 1],
            seq![1u8, 1, 0, 0, 1, 1],
            seq![1u8, 1, 0, 0, 1, 1],
            seq![1u8, 1, 1, 1, 1, 1],
        ]
    } else if d == 7 {
        seq![
            seq![1u8, 1, 1, 1, 1, 1],
            seq![0u8, 0, 0, 0, 1, 1],
            seq![0u8, 0, 0, 0, 1, 1],
            seq![0u8, 0, 0, 0, 1, 1],
            seq![0u8, 0, 0, 0, 1, 1],
            seq![0u8, 0, 0, 0, 1, 1],
            seq![0u8, 0, 0, 0, 1, 1],
        ]
    } else if d == 8 {
        seq![
            seq![1u8, 1, 1, 1, 1, 1],
            seq![1u8, 1, 0, 0, 1, 1],
            seq![1u8, 1, 0, 0, 1, 1],
            seq![1u8, 1, 1, 1, 1, 1],
            seq![1u8, 1, 0, 0, 1, 1],
            seq![1u8, 1, 0, 0, 1, 1],
            seq![1u8, 1, 1, 1, 1, 1],
        ]
    } else {
        seq![
            seq![1u8, 1, 1, 1, 1, 1],
            seq![1u8, 1, 0, 0, 1, 1],
            seq![1u8, 1, 0, 0, 1, 1],
            seq![1u8, 1, 1, 1, 1, 1],
            seq![0u8, 0, 0, 0, 1, 1],
            seq![0u8, 0, 0, 0, 1, 1],
            seq![1u8, 1, 1, 1, 1, 1],
        ]
    }
}

/// The 2x7 bitmap of the colon between hours and minutes.
pub open spec fn colon_glyph() -> Seq<Seq<u8>> {
    seq![
        seq![0u8, 0],
        seq![1u8, 1],
        seq![1u8, 1],
        seq![0u8, 0],
        seq![1u8, 1],
        seq![1u8, 1],
        seq![0u8, 0],
    ]
}

/// What one bitmap cell looks like on screen.
pub open spec fn pixel(bit: u8) -> char {
    if bit == 1 {
        CLOCK_CHAR
    } else {
        ' '
    }
}

/// One bitmap row as text.
pub open spec fn bitmap_text(bits: Seq<u8>) -> Seq<char> {
    Seq::new(bits.len(), |c: int| pixel(bits[c]))
}

/// `n` blank cells.
pub open spec fn gap(n: nat) -> Seq<char> {
    repeat_char(' ', n)
}

/// Tens digit of the hours as shown (the hours are taken modulo 100).
pub open spec fn hour_tens(hours: u32) -> int {
    ((hours / 10) % 10) as int
}

/// Units digit of the hours.
pub open spec fn hour_units(hours: u32) -> int {
    (hours % 10) as int
}

/// Tens digit of the minutes as shown (the minutes are taken modulo 100).
pub open spec fn minute_tens(minutes: u32) -> int {
    ((minutes / 10) % 10) as int
}

/// Units digit of the minutes.
pub open spec fn minute_units(minutes: u32) -> int {
    (minutes % 10) as int
}

/// Row `r` of the upright clock face: H H : M M with their gaps.
pub open spec fn clock_row(hours: u32, minutes: u32, r: int) -> Seq<char> {
    bitmap_text(glyph(hour_tens(hours))[r]) + gap(GAP_DIGIT as nat) + bitmap_text(
        glyph(hour_units(hours))[r],
    ) + gap(GAP_COLON as nat) + bitmap_text(colon_glyph()[r]) + gap(GAP_COLON as nat)
        + bitmap_text(glyph(minute_tens(minutes))[r]) + gap(GAP_DIGIT as nat) + bitmap_text(
        glyph(minute_units(minutes))[r],
    )
}

/// The upright clock face: `DIGIT_HEIGHT` rows.
pub open spec fn unslanted_clock(hours: u32, minutes: u32) -> Seq<Seq<char>> {
    Seq::new(DIGIT_HEIGHT as nat, |r: int| clock_row(hours, minutes, r))
}

/// Index of the last row of a grid of `n` rows (zero for an empty grid).
pub open spec fn last_row(n: nat) -> nat {
    if n == 0 {
        0
    } else {
        (n - 1) as nat
    }
}

/// Row `r` of a grid of `n` rows, shifted: `last_row(n) - r` blanks before it,
/// `r` blanks after it.
pub open spec fn slant_row(n: nat, r: int, line: Seq<char>) -> Seq<char> {
    gap((last_row(n) - r) as nat) + line + gap(r as nat)
}

/// The slanted grid: each row shifted by its distance from the bottom.
pub open spec fn slanted(grid: Seq<Seq<char>>) -> Seq<Seq<char>> {
    Seq::new(grid.len(), |r: int| slant_row(grid.len(), r, grid[r]))
}

/// The slanted clock face.
pub open spec fn slanted_clock(hours: u32, minutes: u32) -> Seq<Seq<char>> {
    slanted(unslanted_clock(hours, minutes))
}

/// The bitmap rows of digit `d`.
fn glyph_rows(d: usize) -> (rows: Vec<Vec<u8>>)
    requires
        d < 10,
    ensures
        rows.deep_view() == glyph(d as int),
{
    let rows = match d {
        0 => vec![
            vec![1u8, 1, 1, 1, 1, 1],
            vec![1u8, 1, 0, 0, 1, 1],
            vec![1u8, 1, 0, 0, 1, 1],
            vec![1u8, 1, 0, 0, 1, 1],
            vec![1u8, 1, 0, 0, 1, 1],
            vec![1u8, 1, 0, 0, 1, 1],
            vec![1u8, 1, 1, 1, 1, 1],
        ],
        1 => vec![
            vec![1u8, 1, 1, 1, 0, 0],
            vec![0u8, 0, 1, 1, 0, 0],
            vec![0u8, 0, 1, 1, 0, 0],
            vec![0u8, 0, 1, 1, 0, 0],
            vec![0u8, 0, 1, 1, 0, 0],
            vec![0u8, 0, 1, 1, 0, 0],
            vec![1u8, 1, 1, 1, 1, 1],
        ],
        2 => vec![
            vec![1u8, 1, 1, 1, 1, 1],
            vec![0u8, 0, 0, 0, 1, 1],
            vec![0u8, 0, 0, 0, 1, 1],
            vec![1u8, 1, 1, 1, 1, 1],
            vec![1u8, 1, 0, 0, 0, 0],
            vec![1u8, 1, 0, 0, 0, 0],
            vec![1u8, 1, 1, 1, 1, 1],
        ],
        3 => vec![
            vec![1u8, 1, 1, 1, 1, 1],
            vec![0u8, 0, 0, 0, 1, 1],
            vec![0u8, 0, 0, 0, 1, 1],
            vec![1u8, 1, 1, 1, 1, 1],
            vec![0u8, 0, 0, 0, 1, 1],
            vec![0u8, 0, 0, 0, 1, 1],
            vec![1u8, 1, 1, 1, 1, 1],
        ],
        4 => vec![
            vec![1u8, 1, 0, 0, 1, 1],
            vec![1u8, 1, 0, 0, 1, 1],
            vec![1u8, 1, 0, 0, 1, 1],
            vec![1u8, 1, 1, 1, 1, 1],
            vec![0u8, 0, 0, 0, 1, 1],
            vec![0u8, 0, 0, 0, 1, 1],
            vec![0u8, 0, 0, 0, 1, 1],
        ],
        5 => vec![
            vec![1u8, 1, 1, 1, 1, 1],
            vec![1u8, 1, 0, 0, 0, 0],
            vec![1u8, 1, 0, 0, 0, 0],
            vec![1u8, 1, 1, 1, 1, 1],
            vec![0u8, 0, 0, 0, 1, 1],
            vec![0u8, 0, 0, 0, 1, 1],
            vec![1u8, 1, 1, 1, 1, 1],
        ],
        6 => vec![
            vec![1u8, 1, 1, 1, 1, 1],
            vec![1u8, 1, 0, 0, 0, 0],
            vec![1u8, 1, 0, 0, 0, 0],
            vec![1u8, 1, 1, 1, 1, 1],
            vec![1u8, 1, 0, 0, 1, 1],
            vec![1u8, 1, 0, 0, 1, 1],
            vec![1u8, 1, 1, 1, 1, 1],
        ],
        7 => vec![
            vec![1u8, 1, 1, 1, 1, 1],
            vec![0u8, 0, 0, 0, 1, 1],
            vec![0u8, 0, 0, 0, 1, 1],
            vec![0u8, 0, 0, 0, 1, 1],
            vec![0u8, 0, 0, 0, 1, 1],
            vec![0u8, 0, 0, 0, 1, 1],
            vec![0u8, 0, 0, 0, 1, 1],
        ],
        8 => vec![
            vec![1u8, 1, 1, 1, 1, 1],
            vec![1u8, 1, 0, 0, 1, 1],
            vec![1u8, 1, 0, 0, 1, 1],
            vec![1u8, 1, 1, 1, 1, 1],
            vec![1u8, 1, 0, 0, 1, 1],
            vec![1u8, 1, 0, 0, 1, 1],
            vec![1u8, 1, 1, 1, 1, 1],
        ],
        _ => vec![
            vec![1u8, 1, 1, 1, 1, 1],
            vec![1u8, 1, 0, 0, 1, 1],
            vec![1u8, 1, 0, 0, 1, 1],
            vec![1u8, 1, 1, 1, 1, 1],
            vec![0u8, 0, 0, 0, 1, 1],
            vec![0u8, 0, 0, 0, 1, 1],
            vec![1u8, 1, 1, 1, 1, 1],
        ],
    };
    assert(rows.deep_view() =~~= glyph(d as int));
    rows
}

/// Every digit bitmap is `DIGIT_HEIGHT` rows of `DIGIT_WIDTH` cells.
pub proof fn lemma_glyph_dims(d: int)
    requires
        0 <= d < 10,
    ensures
        glyph(d).len() == DIGIT_HEIGHT,
        forall|r: int| 0 <= r < DIGIT_HEIGHT ==> (#[trigger] glyph(d)[r]).len() == DIGIT_WIDTH,
{
}

/// Width of every row of the upright clock face, in cells.
pub open spec fn clock_width() -> nat {
    (4 * DIGIT_WIDTH + 2 * GAP_DIGIT + 2 * GAP_COLON + COLON_WIDTH) as nat
}

/// The upright clock face has `DIGIT_HEIGHT` rows, all `clock_width()` cells
/// wide, and every cell is either the clock character or a blank.
pub proof fn lemma_unslanted_clock_shape(hours: u32, minutes: u32)
    ensures
        unslanted_clock(hours, minutes).len() == DIGIT_HEIGHT,
        forall|r: int|
            0 <= r < DIGIT_HEIGHT ==> (#[trigger] unslanted_clock(hours, minutes)[r]).len()
                == clock_width(),
        forall|r: int, c: int|
            0 <= r < DIGIT_HEIGHT && 0 <= c < clock_width() ==> {
                let ch = #[trigger] unslanted_clock(hours, minutes)[r][c];
                ch == CLOCK_CHAR || ch == ' '
            },
{
    lemma_glyph_dims(hour_tens(hours));
    lemma_glyph_dims(hour_units(hours));
    lemma_glyph_dims(minute_tens(minutes));
    lemma_glyph_dims(minute_units(minutes));
    assert(colon_glyph().len() == DIGIT_HEIGHT);
    assert forall|r: int| 0 <= r < DIGIT_HEIGHT implies (#[trigger] colon_glyph()[r]).len()
        == COLON_WIDTH by {
        assert(colon_glyph()[r].len() == COLON_WIDTH);
    }
    assert forall|r: int, c: int|
        0 <= r < DIGIT_HEIGHT && 0 <= c < clock_width() implies {
            let ch = #[trigger] unslanted_clock(hours, minutes)[r][c];
            ch == CLOCK_CHAR || ch == ' '
        } by {
        let row = clock_row(hours, minutes, r);
        assert(row.len() == clock_width());
        assert(row[c] == CLOCK_CHAR || row[c] == ' ');
    }
}

/// Only the last two decimal digits of the hours and of the minutes show on
/// the clock face.
pub proof fn lemma_clock_shows_two_digits(hours: u32, minutes: u32)
    ensures
        unslanted_clock(hours, minutes) == unslanted_clock(hours % 100, minutes % 100),
{
    assert(hour_tens(hours) == hour_tens(hours % 100)) by (nonlinear_arith);
    assert(minute_tens(minutes) == minute_tens(minutes % 100)) by (nonlinear_arith);
    assert(hour_units(hours) == hour_units(hours % 100)) by (nonlinear_arith);
    assert(minute_units(minutes) == minute_units(minutes % 100)) by (nonlinear_arith);
    assert(unslanted_clock(hours, minutes) =~= unslanted_clock(hours % 100, minutes % 100));
}

/// Slanting only adds blanks: row `r` of the slanted grid is row `r` of the
/// grid with `last_row - r` blanks before it and `r` blanks after it, so the
/// grid row is found again at column `last_row - r`.
pub proof fn lemma_slant_keeps_rows(grid: Seq<Seq<char>>, r: int)
    requires
        0 <= r < grid.len(),
    ensures
        slanted(grid).len() == grid.len(),
        ({
            let row = slanted(grid)[r];
            let left = last_row(grid.len()) - r;
            &&& row.len() == grid[r].len() + last_row(grid.len())
            &&& row.subrange(0, left) == gap(left as nat)
            &&& row.subrange(left, left + grid[r].len()) == grid[r]
            &&& row.subrange(left + grid[r].len(), row.len() as int) == gap(r as nat)
        }),
{
    let row = slanted(grid)[r];
    let left = last_row(grid.len()) - r;
    assert(row.subrange(0, left) =~= gap(left as nat));
    assert(row.subrange(left, left + grid[r].len()) =~= grid[r]);
    assert(row.subrange(left + grid[r].len(), row.len() as int) =~= gap(r as nat));
}

/// Slanting keeps rows of equal width equal: when every row of the grid is `w`
/// cells wide, every slanted row is `w + last_row` cells wide.
pub proof fn lemma_slant_uniform_width(grid: Seq<Seq<char>>, w: nat)
    requires
        forall|r: int| 0 <= r < grid.len() ==> (#[trigger] grid[r]).len() == w,
    ensures
        forall|r: int|
            0 <= r < grid.len() ==> (#[trigger] slanted(grid)[r]).len() == w + last_row(
                grid.len(),
            ),
{
}

/// The slanted clock: `DIGIT_HEIGHT` rows all `clock_width() + DIGIT_HEIGHT - 1`
/// cells wide; row `r` holds the upright row `r` after `DIGIT_HEIGHT - 1 - r`
/// blanks, so row 0 sits three cells right of the centre line, row 3 on it and
/// row 6 three cells left of it.
pub proof fn lemma_slanted_clock_shape(hours: u32, minutes: u32)
    ensures
        slanted_clock(hours, minutes).len() == DIGIT_HEIGHT,
        forall|r: int|
            0 <= r < DIGIT_HEIGHT ==> {
                let row = #[trigger] slanted_clock(hours, minutes)[r];
                &&& row.len() == clock_width() + DIGIT_HEIGHT - 1
                &&& row == gap((DIGIT_HEIGHT - 1 - r) as nat) + unslanted_clock(hours, minutes)[r]
                    + gap(r as nat)
                &&& (DIGIT_HEIGHT - 1 - r) - r == 2 * (3 - r)
            },
{
    lemma_unslanted_clock_shape(hours, minutes);
}

/// A two-cell stroke: both cells lit, or both blank.
pub open spec fn stroke(lit: bool) -> Seq<u8> {
    if lit {
        seq![1u8, 1]
    } else {
        seq![0u8, 0]
    }
}

/// The seven segments of a digit display: top, upper right, lower right,
/// bottom, lower left, upper left, middle.
pub struct Segments {
    pub top: bool,
    pub upper_right: bool,
    pub lower_right: bool,
    pub bottom: bool,
    pub lower_left: bool,
    pub upper_left: bool,
    pub middle: bool,
}

/// The segments lit for each digit on a seven-segment display (the 6 with its
/// top bar, the 7 without a left bar, the 9 with its bottom bar).
pub open spec fn segments_of(d: int) -> Segments {
    if d == 0 {
        Segments { top: true, upper_right: true, lower_right: true, bottom: true, lower_left: true, upper_left: true, middle: false }
    } else if d == 2 {
        Segments { top: true, upper_right: true, lower_right: false, bottom: true, lower_left: true, upper_left: false, middle: true }
    } else if d == 3 {
        Segments { top: true, upper_right: true, lower_right: true, bottom: true, lower_left: false, upper_left: false, middle: true }
    } else if d == 4 {
        Segments { top: false, upper_right: true, lower_right: true, bottom: false, lower_left: false, upper_left: true, middle: true }
    } else if d == 5 {
        Segments { top: true, upper_right: false, lower_right: true, bottom: true, lower_left: false, upper_left: true, middle: true }
    } else if d == 6 {
        Segments { top: true, upper_right: false, lower_right: true, bottom: true, lower_left: true, upper_left: true, middle: true }
    } else if d == 7 {
        Segments { top: true, upper_right: true, lower_right: true, bottom: false, lower_left: false, upper_left: false, middle: false }
    } else if d == 8 {
        Segments { top: true, upper_right: true, lower_right: true, bottom: true, lower_left: true, upper_left: true, middle: true }
    } else {
        Segments { top: true, upper_right: true, lower_right: true, bottom: true, lower_left: false, upper_left: true, middle: true }
    }
}

/// Row `r` of a 6x7 drawing of the segments `s` with two-cell strokes: a lit
/// bar (top in row 0, middle in row 3, bottom in row 6) fills its row; other
/// rows show the left and right strokes that pass through them, with a blank
/// two-cell hole between.
pub open spec fn segment_row(s: Segments, r: int) -> Seq<u8> {
    let bar = if r == 0 {
        s.top
    } else if r == 3 {
        s.middle
    } else if r == 6 {
        s.bottom
    } else {
        false
    };
    let left = if r < 3 {
        s.upper_left
    } else if r == 3 {
        s.upper_left || s.lower_left
    } else {
        s.lower_left
    };
    let right = if r < 3 {
        s.upper_right
    } else if r == 3 {
        s.upper_right || s.lower_right
    } else {
        s.lower_right
    };
    if bar {
        seq![1u8, 1, 1, 1, 1, 1]
    } else {
        stroke(left) + seq![0u8, 0] + stroke(right)
    }
}

/// The 6x7 drawing of the segments `s`.
pub open spec fn segment_drawing(s: Segments) -> Seq<Seq<u8>> {
    Seq::new(7, |r: int| segment_row(s, r))
}

/// Every digit but 1 is drawn as its seven-segment figure; the 1 is a
/// two-cell stem in the middle columns, with a flag to its left on top and a
/// full foot.
pub proof fn lemma_font_is_seven_segment(d: int)
    requires
        0 <= d < 10,
    ensures
        d != 1 ==> glyph(d) == segment_drawing(segments_of(d)),
        d == 1 ==> {
            &&& glyph(d).len() == 7
            &&& glyph(d)[0] == seq![1u8, 1, 1, 1, 0, 0]
            &&& forall|r: int| 1 <= r < 6 ==> #[trigger] glyph(d)[r] == seq![0u8, 0, 1, 1, 0, 0]
            &&& glyph(d)[6] == seq![1u8, 1, 1, 1, 1, 1]
        },
{
    if d != 1 {
        let g = glyph(d);
        let t = segment_drawing(segments_of(d));
        assert forall|r: int| 0 <= r < 7 implies #[trigger] g[r] =~= t[r] by {
            assert(g[r] =~= segment_row(segments_of(d), r));
        }
        assert(g =~= t);
    } else {
        assert forall|r: int| 1 <= r < 6 implies #[trigger] glyph(d)[r] == seq![0u8, 0, 1, 1, 0, 0] by {
            assert(glyph(d)[r] =~= seq![0u8, 0, 1, 1, 0, 0]);
        }
    }
}

/// No two digits look alike.
pub proof fn lemma_glyphs_distinct(d1: int, d2: int)
    requires
        0 <= d1 < 10,
        0 <= d2 < 10,
        d1 != d2,
    ensures
        glyph(d1) != glyph(d2),
{
    lemma_font_is_seven_segment(d1);
    lemma_font_is_seven_segment(d2);
    let g1 = glyph(d1);
    let g2 = glyph(d2);
    // Each pair differs in one of a few probe cells.
    if g1 == g2 {
        assert(g1[0][0] == g2[0][0]);
        assert(g1[0][5] == g2[0][5]);
        assert(g1[1][0] == g2[1][0]);
        assert(g1[1][2] == g2[1][2]);
        assert(g1[1][5] == g2[1][5]);
        assert(g1[3][0] == g2[3][0]);
        assert(g1[3][2] == g2[3][2]);
        assert(g1[4][0] == g2[4][0]);
        assert(g1[4][5] == g2[4][5]);
        assert(g1[6][0] == g2[6][0]);
        assert(g1[6][2] == g2[6][2]);
    }
}

/// The bitmap rows of the colon.
fn colon_rows() -> (rows: Vec<Vec<u8>>)
    ensures
        rows.deep_view() == colon_glyph(),
{
    let rows = vec![
        vec![0u8, 0],
        vec![1u8, 1],
        vec![1u8, 1],
        vec![0u8, 0],
        vec![1u8, 1],
        vec![1u8, 1],
        vec![0u8, 0],
    ];
    assert(rows.deep_view() =~~= colon_glyph());
    rows
}

/// Appends one bitmap row as text.
fn push_bitmap_row(line: &mut String, bits: &Vec<u8>)
    ensures
        final(line)@ == old(line)@ + bitmap_text(bits@),
{
    let ghost start = line@;
    let mut c: usize = 0;
    while c < bits.len()
        invariant
            c <= bits@.len(),
            line@ == start + bitmap_text(bits@.subrange(0, c as int)),
        decreases bits@.len() - c,
    {
        let cell = if bits[c] == 1 {
            CLOCK_CHAR
        } else {
            ' '
        };
        string_push(line, cell);
        c = c + 1;
        assert(line@ =~= start + bitmap_text(bits@.subrange(0, c as int)));
    }
    assert(bits@.subrange(0, c as int) =~= bits@);
}

/// Renders the upright clock face for `hours:minutes`, one string per row.
/// Only the last two decimal digits of each number are drawn.
pub fn render_unslanted_clock(hours: u32, minutes: u32) -> (rows: Vec<String>)
    ensures
        rows.deep_view() == unslanted_clock(hours, minutes),
{
    let d1 = glyph_rows(((hours / 10) % 10) as usize);
    let d2 = glyph_rows((hours % 10) as usize);
    let colon = colon_rows();
    let d3 = glyph_rows(((minutes / 10) % 10) as usize);
    let d4 = glyph_rows((minutes % 10) as usize);
    proof {
        lemma_glyph_dims(hour_tens(hours));
        lemma_glyph_dims(hour_units(hours));
        lemma_glyph_dims(minute_tens(minutes));
        lemma_glyph_dims(minute_units(minutes));
        assert(colon.deep_view().len() == colon@.len());
        assert(colon_glyph().len() == DIGIT_HEIGHT);
    }
    let mut rows: Vec<String> = Vec::with_capacity(DIGIT_HEIGHT);
    let mut r: usize = 0;
    while r < DIGIT_HEIGHT
        invariant
            r <= DIGIT_HEIGHT,
            d1.deep_view() == glyph(hour_tens(hours)),
            d2.deep_view() == glyph(hour_units(hours)),
            colon.deep_view() == colon_glyph(),
            d3.deep_view() == glyph(minute_tens(minutes)),
            d4.deep_view() == glyph(minute_units(minutes)),
            d1@.len() == DIGIT_HEIGHT,
            d2@.len() == DIGIT_HEIGHT,
            colon@.len() == DIGIT_HEIGHT,
            d3@.len() == DIGIT_HEIGHT,
            d4@.len() == DIGIT_HEIGHT,
            rows@.len() == r,
            forall|j: int| 0 <= j < r ==> #[trigger] rows@[j]@ == clock_row(hours, minutes, j),
        decreases DIGIT_HEIGHT - r,
    {
        let mut line = String::new();
        assert(d1@[r as int]@ == glyph(hour_tens(hours))[r as int]);
        assert(d2@[r as int]@ == glyph(hour_units(hours))[r as int]);
        assert(colon@[r as int]@ == colon_glyph()[r as int]);
        assert(d3@[r as int]@ == glyph(minute_tens(minutes))[r as int]);
        assert(d4@[r as int]@ == glyph(minute_units(minutes))[r as int]);
        push_bitmap_row(&mut line, &d1[r]);
        push_repeat(&mut line, ' ', GAP_DIGIT);
        push_bitmap_row(&mut line, &d2[r]);
        push_repeat(&mut line, ' ', GAP_COLON);
        push_bitmap_row(&mut line, &colon[r]);
        push_repeat(&mut line, ' ', GAP_COLON);
        push_bitmap_row(&mut line, &d3[r]);
        push_repeat(&mut line, ' ', GAP_DIGIT);
        push_bitmap_row(&mut line, &d4[r]);
        assert(line@ =~= clock_row(hours, minutes, r as int));
        rows.push(line);
        r = r + 1;
    }
    assert(rows.deep_view() =~= unslanted_clock(hours, minutes));
    rows
}

/// Slants a grid of rows: row `r` of `n` gets `n - 1 - r` blanks before it and
/// `r` blanks after it, so rows of equal width stay of equal width and each row
/// sits one cell left of the one above it.
pub fn slant_grid(grid: &[String]) -> (slanted_rows: Vec<String>)
    ensures
        slanted_rows.deep_view() == slanted(grid.deep_view()),
{
    let max_row = grid.len().saturating_sub(1);
    let mut out: Vec<String> = Vec::with_capacity(grid.len());
    let mut r: usize = 0;
    while r < grid.len()
        invariant
            r <= grid@.len(),
            max_row == last_row(grid@.len()),
            out@.len() == r,
            forall|j: int|
                0 <= j < r ==> #[trigger] out@[j]@ == slant_row(grid@.len(), j, grid@[j]@),
        decreases grid@.len() - r,
    {
        let pad_left = max_row - r;
        let pad_right = r;
        let mut row_str = String::new();
        push_repeat(&mut row_str, ' ', pad_left);
        row_str.append(grid[r].as_str());
        push_repeat(&mut row_str, ' ', pad_right);
        assert(row_str@ =~= slant_row(grid@.len(), r as int, grid@[r as int]@));
        out.push(row_str);
        r = r + 1;
    }
    assert(out.deep_view() =~= slanted(grid.deep_view()));
    out
}

/// Renders the slanted clock face for `hours:minutes`.
pub fn render_slanted_clock(hours: u32, minutes: u32) -> (rows: Vec<String>)
    ensures
        rows.deep_view() == slanted_clock(hours, minutes),
{
    let unslanted = render_unslanted_clock(hours, minutes);
    slant_grid(unslanted.as_slice())
}

} // verus!
