//! Where a mouse click lands in a bordered text editor with a line-number
//! gutter: the editor shows the lines around the cursor, the gutter is as wide
//! as the last shown line number (at least two digits), and the click is
//! taken relative to the text after the gutter.

use vstd::prelude::*;
use crate::git_log::{char_counts, click_from, textarea_click_position};
use crate::pointer::ScreenRect;

verus! {

pub open spec fn sat_sub(a: int, b: int) -> int {
    if a > b { a - b } else { 0 }
}

pub open spec fn min_of(a: int, b: int) -> int {
    if a < b { a } else { b }
}

pub open spec fn max_of(a: int, b: int) -> int {
    if a > b { a } else { b }
}

/// The number of decimal digits of `n` (one for zero).
pub open spec fn decimal_digits(n: nat) -> nat
    decreases n,
{
    if n < 10 { 1 } else { 1 + decimal_digits(n / 10) }
}

/// Rows of text the editor shows inside its border (at least one).
pub open spec fn visible_rows(rect: ScreenRect) -> int {
    max_of(sat_sub(rect.height as int, 2), 1)
}

/// The first line shown: the cursor's line is kept in the middle, and the
/// view never runs past the last line.
pub open spec fn first_shown_line(rect: ScreenRect, line_count: int, cursor_row: int) -> int {
    let visible = visible_rows(rect);
    min_of(sat_sub(cursor_row, visible / 2), sat_sub(line_count, visible))
}

/// Width of the line-number gutter: the digits of the last shown line
/// number, at least two.
pub open spec fn gutter_width(rect: ScreenRect, line_count: int, cursor_row: int) -> int {
    let end = min_of(first_shown_line(rect, line_count, cursor_row) + visible_rows(rect), line_count);
    max_of(decimal_digits(max_of(end, 1) as nat) as int, 2)
}

/// How a click maps onto the editor's text.
#[derive(Clone, Copy, Debug, PartialEq, Eq, Structural)]
pub struct TextareaClick {
    /// First line shown.
    pub start_row: usize,
    /// Columns of text per row (at least one).
    pub content_width: usize,
    /// Rows below the first shown row.
    pub relative_row: usize,
    /// Columns into the text, after the gutter.
    pub clicked_col: usize,
}

pub open spec fn click_geometry(rect: ScreenRect, line_count: int, cursor_row: int, column: int, row: int) -> TextareaClick {
    let gutter = gutter_width(rect, line_count, cursor_row);
    TextareaClick {
        start_row: first_shown_line(rect, line_count, cursor_row) as usize,
        content_width: max_of(sat_sub(sat_sub(rect.width as int, 2), gutter + 1), 1) as usize,
        relative_row: sat_sub(row, rect.y + 1) as usize,
        clicked_col: sat_sub(column, rect.x + 1 + gutter + 1) as usize,
    }
}

pub open spec fn pow10(k: nat) -> nat
    decreases k,
{
    if k == 0 { 1 } else { 10 * pow10((k - 1) as nat) }
}

proof fn lemma_digits_below_power(n: nat, k: nat)
    requires
        k >= 1,
        n < pow10(k),
    ensures
        decimal_digits(n) <= k,
    decreases k,
{
    if n >= 10 {
        assert(k >= 2) by {
            if k == 1 {
                reveal_with_fuel(pow10, 2);
            }
        }
        assert(n / 10 < pow10((k - 1) as nat));
        lemma_digits_below_power(n / 10, (k - 1) as nat);
    }
}

proof fn lemma_usize_digits(n: usize)
    ensures
        1 <= decimal_digits(n as nat) <= 20,
{
    reveal_with_fuel(pow10, 21);
    assert(pow10(20) == 100000000000000000000nat);
    lemma_digits_below_power(n as nat, 20);
}

/// The number of decimal digits of `n`.
pub fn count_decimal_digits(n: usize) -> (d: usize)
    ensures
        d == decimal_digits(n as nat),
        1 <= d <= 20,
{
    proof {
        lemma_usize_digits(n);
    }
    let mut m = n;
    let mut d: usize = 1;
    while m >= 10
        invariant
            d + decimal_digits(m as nat) == decimal_digits(n as nat) + 1,
            1 <= d,
            decimal_digits(n as nat) <= 20,
        decreases m,
    {
        m = m / 10;
        d = d + 1;
    }
    d
}

/// Where a click at (`column`, `row`) falls in an editor drawn in `rect`
/// with `line_count` lines and the cursor on line `cursor_row`.
pub fn textarea_click_geometry(rect: ScreenRect, line_count: usize, cursor_row: usize, column: u16, row: u16) -> (g: TextareaClick)
    requires
        rect.x + 1 + gutter_width(rect, line_count as int, cursor_row as int) + 1 <= u16::MAX,
        rect.y + 1 <= u16::MAX,
    ensures
        g == click_geometry(rect, line_count as int, cursor_row as int, column as int, row as int),
{
    let inner_x = rect.x + 1;
    let inner_y = rect.y + 1;
    let inner_width = rect.width.saturating_sub(2);
    let inner_height = rect.height.saturating_sub(2);
    let visible: usize = if inner_height > 1 { inner_height as usize } else { 1 };
    let a = cursor_row.saturating_sub(visible / 2);
    let b = line_count.saturating_sub(visible);
    let start_row = if a < b { a } else { b };
    let end_row = if start_row + visible < line_count { start_row + visible } else { line_count };
    let digits = count_decimal_digits(if end_row > 1 { end_row } else { 1 });
    let gutter: u16 = if digits > 2 { digits as u16 } else { 2 };
    let after_gutter = inner_width.saturating_sub(gutter + 1);
    let content_width: usize = if after_gutter > 1 { after_gutter as usize } else { 1 };
    TextareaClick {
        start_row,
        content_width,
        relative_row: row.saturating_sub(inner_y) as usize,
        clicked_col: column.saturating_sub(inner_x + gutter + 1) as usize,
    }
}

/// The `(line, column)` a click at (`column`, `row`) moves the cursor to in an
/// editor drawn in `rect` showing `lines` with the cursor on `cursor_row`.
pub fn textarea_click_target(lines: &Vec<String>, rect: ScreenRect, cursor_row: usize, column: u16, row: u16) -> (r: (usize, usize))
    requires
        rect.x + 1 + gutter_width(rect, lines@.len() as int, cursor_row as int) + 1 <= u16::MAX,
        rect.y + 1 <= u16::MAX,
    ensures
        ({
            let g = click_geometry(rect, lines@.len() as int, cursor_row as int, column as int, row as int);
            (r.0 as int, r.1 as int) == click_from(char_counts(lines@), g.start_row as int, 0,
                g.relative_row as int, g.clicked_col as int, g.content_width as int)
        }),
{
    let g = textarea_click_geometry(rect, lines.len(), cursor_row, column, row);
    textarea_click_position(lines, g.start_row, g.content_width, g.relative_row, g.clicked_col)
}

/// Two clicks on the same editor count as a double click when the second
/// comes at most this many milliseconds after the first.
pub const DOUBLE_CLICK_MILLIS: u128 = 400;

/// Whether a click is the second of a double click: a first click came
/// `since_previous_ms` milliseconds earlier, within the window.
pub fn is_double_click(since_previous_ms: Option<u128>) -> (r: bool)
    ensures
        r == (since_previous_ms matches Some(ms) && ms <= DOUBLE_CLICK_MILLIS),
{
    match since_previous_ms {
        Some(ms) => ms <= DOUBLE_CLICK_MILLIS,
        None => false,
    }
}

} // verus!
