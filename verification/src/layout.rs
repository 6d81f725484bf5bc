use vstd::prelude::*;
use vstd::arithmetic::div_mod::{lemma_fundamental_div_mod, lemma_fundamental_div_mod_converse};

verus! {

/// Rows shown per form field for a dialog body of the given height.
pub fn dialog_form_row_height(viewport_height: u16) -> (h: u16)
    ensures
        h == (if viewport_height >= 8 { 3u16 } else if viewport_height >= 4 { 2u16 } else { 1u16 }),
{
    if viewport_height >= 8 {
        3
    } else if viewport_height >= 4 {
        2
    } else {
        1
    }
}

proof fn lemma_negative_mod(x: int, n: int)
    requires
        x < 0,
        n > 0,
    ensures
        x % n == (if (-x) % n == 0 { 0 } else { n - (-x) % n }),
{
    let y = -x;
    lemma_fundamental_div_mod(y, n);
    let q = y / n;
    let r0 = y % n;
    assert(y == n * q + r0);
    if r0 == 0 {
        assert(x == (-q) * n + 0) by (nonlinear_arith) requires y == n * q + r0, r0 == 0, x == -y;
        lemma_fundamental_div_mod_converse(x, n, -q, 0);
    } else {
        assert(x == (-q - 1) * n + (n - r0)) by (nonlinear_arith) requires y == n * q + r0, x == -y;
        lemma_fundamental_div_mod_converse(x, n, -q - 1, n - r0);
    }
}

/// `(current + delta)` wrapped into `0..len` (Euclidean remainder).
pub fn wrap_index(current: usize, delta: isize, len: usize) -> (r: usize)
    requires
        len > 0,
    ensures
        r == (current + delta) % (len as int),
        r < len,
{
    let x: i128 = current as i128 + delta as i128;
    let n: u128 = len as u128;
    if x >= 0 {
        let r = (x as u128) % n;
        r as usize
    } else {
        let y: u128 = ((0i128 - x) as u128) % n;
        proof {
            lemma_negative_mod(x as int, len as int);
        }
        if y == 0 {
            0
        } else {
            (n - y) as usize
        }
    }
}

/// `current + delta` clamped into `0..=max`.
pub fn clamp_offset(current: usize, delta: isize, max: usize) -> (r: usize)
    ensures
        r == (if current + delta < 0 {
            0
        } else if current + delta > max {
            max as int
        } else {
            current + delta
        }),
{
    let x: i128 = current as i128 + delta as i128;
    if x < 0 {
        0
    } else if x > max as i128 {
        max
    } else {
        x as usize
    }
}

/// Rotating by `delta` and then by `-delta` returns to the start.
pub proof fn law_wrap_index_round_trip(current: int, delta: int, len: int)
    requires
        0 <= current < len,
    ensures
        (((current + delta) % len) - delta) % len == current,
{
    let j = (current + delta) % len;
    lemma_fundamental_div_mod(current + delta, len);
    let q = (current + delta) / len;
    assert(j - delta == current + (-q) * len) by (nonlinear_arith)
        requires
            current + delta == len * q + j,
    ;
    lemma_fundamental_div_mod_converse(j - delta, len, -q, current);
}

/// The scroll offset that keeps `focus_index` (if any) inside a window of
/// `visible_rows` rows over `total_rows` rows.
pub open spec fn clamped_scroll(scroll: int, total_rows: int, visible_rows: int, focus: Option<usize>) -> int {
    let visible = if visible_rows < 1 { 1 } else { visible_rows };
    let max_scroll = if total_rows > visible { total_rows - visible } else { 0 };
    let s = if scroll < max_scroll { scroll } else { max_scroll };
    match focus {
        Some(f) => if f < s {
            f as int
        } else if f >= s + visible {
            f + 1 - visible
        } else {
            s
        },
        None => s,
    }
}

/// Clamps a dialog's scroll offset into range and scrolls the focused row into view.
pub fn clamp_dialog_scroll(
    scroll_offset: &mut usize,
    total_rows: usize,
    visible_rows: usize,
    focus_index: Option<usize>,
)
    ensures
        *final(scroll_offset) == clamped_scroll(*old(scroll_offset) as int, total_rows as int, visible_rows as int, focus_index),
{
    let visible_rows = if visible_rows < 1 { 1 } else { visible_rows };
    let max_scroll = if total_rows > visible_rows { total_rows - visible_rows } else { 0 };
    if *scroll_offset > max_scroll {
        *scroll_offset = max_scroll;
    }
    if let Some(focus_index) = focus_index {
        if focus_index < *scroll_offset {
            *scroll_offset = focus_index;
        } else if focus_index - *scroll_offset >= visible_rows {
            *scroll_offset = focus_index - (visible_rows - 1);
        }
    }
}

pub open spec fn visible_rows_spec(viewport_height: int, row_height: int) -> int {
    let h = if row_height < 1 { 1 } else { row_height };
    let n = viewport_height / h;
    if n < 1 { 1 } else { n }
}

/// Rows that fit when each row is `row_height` high (at least one).
pub fn dialog_visible_rows(viewport_height: u16, row_height: u16) -> (r: usize)
    ensures
        r == visible_rows_spec(viewport_height as int, row_height as int),
{
    let h = if row_height < 1 { 1 } else { row_height };
    let n = viewport_height / h;
    if n < 1 { 1 } else { n as usize }
}

/// Width of the label column of a form row.
pub const FORM_LABEL_WIDTH: u16 = 18;
/// Width of a form row's browse button.
pub const BROWSE_BUTTON_WIDTH: u16 = 12;

/// Header rows for a dashboard of the given total height.
pub fn header_height_for_viewport(total_height: u16) -> (h: u16)
    ensures
        h == (if total_height <= 18 {
            2u16
        } else if total_height <= 22 {
            3u16
        } else if total_height < 40 {
            7u16
        } else {
            9u16
        }),
{
    if total_height <= 18 {
        2
    } else if total_height <= 22 {
        3
    } else if total_height < 40 {
        7
    } else {
        9
    }
}

/// Whether recent changes move to their own tab: when the area cannot hold
/// the tallest tile, a separator row and eight rows of changes.
pub fn should_use_recent_changes_tab(area_height: u16, max_tile_height: u16) -> (r: bool)
    ensures
        r == (area_height < (if max_tile_height + 9 > u16::MAX { u16::MAX as int } else {
            max_tile_height + 9
        })),
{
    let needed: u16 = if max_tile_height > u16::MAX - 9 { u16::MAX } else { max_tile_height + 9 };
    area_height < needed
}

pub open spec fn sat_sub(a: int, b: int) -> int {
    if a > b { a - b } else { 0 }
}

/// Characters of a form field that fit in a row of `row_width` columns
/// (label column, optional browse button and borders taken off; at least one).
pub fn visible_field_width(row_width: u16, has_browse: bool) -> (w: usize)
    ensures
        w == ({
            let browse = if has_browse { BROWSE_BUTTON_WIDTH + 1 } else { 0 };
            let rest = sat_sub(sat_sub(sat_sub(row_width as int, FORM_LABEL_WIDTH as int), browse), 2);
            if rest < 1 { 1 } else { rest }
        }),
{
    let browse: u16 = if has_browse { BROWSE_BUTTON_WIDTH + 1 } else { 0 };
    let a = if row_width > FORM_LABEL_WIDTH { row_width - FORM_LABEL_WIDTH } else { 0 };
    let b = if a > browse { a - browse } else { 0 };
    let c = if b > 2 { b - 2 } else { 0 };
    if c < 1 { 1 } else { c as usize }
}

/// The window `[start, end)` of a list of `total` entries that keeps
/// `selected` near the middle of `height` visible rows.
pub fn browser_visible_range(total: usize, selected: usize, height: usize) -> (r: (usize, usize))
    ensures
        ({
            let (start, end) = r;
            if total == 0 || height == 0 {
                start == 0 && end == 0
            } else {
                let s = sat_sub(selected as int, height as int / 2);
                let m = sat_sub(total as int, height as int);
                &&& start == (if s < m { s } else { m })
                &&& end == (if start + height < total { start + height } else { total as int })
            }
        }),
{
    if total == 0 || height == 0 {
        return (0, 0);
    }
    let half = height / 2;
    let s = if selected > half { selected - half } else { 0 };
    let m = if total > height { total - height } else { 0 };
    let start = if s < m { s } else { m };
    let end = if total - start > height { start + height } else { total };
    (start, end)
}

/// The zero-based index for a digit key `1`..`9` (`0` and other keys give none).
pub fn digit_to_index(character: char) -> (r: Option<usize>)
    ensures
        r == (if '1' <= character <= '9' {
            Some(((character as int) - ('1' as int)) as usize)
        } else {
            None::<usize>
        }),
{
    if character >= '1' && character <= '9' {
        Some((character as u32 - '1' as u32) as usize)
    } else {
        None
    }
}

/// Dashboard tile columns that fit in `width` for tiles `tile_width` wide with
/// one column between tiles (at least one).
pub fn dashboard_tile_columns(width: u16, tile_width: u16) -> (n: usize)
    ensures
        n == (if (width + 1) / (tile_width + 1) < 1 { 1 } else { (width + 1) / (tile_width + 1) }),
{
    let w: u32 = width as u32 + 1;
    let t: u32 = tile_width as u32 + 1;
    let n = w / t;
    if n < 1 { 1 } else { n as usize }
}

/// At least one row is always shown, and as many rows as fit show: they
/// fill no more than the viewport (when one fits), and one more would not fit.
pub proof fn law_visible_rows_fill_the_viewport(viewport_height: int, row_height: int)
    requires
        viewport_height >= 0,
        row_height >= 1,
    ensures
        visible_rows_spec(viewport_height, row_height) >= 1,
        viewport_height >= row_height ==> visible_rows_spec(viewport_height, row_height) * row_height <= viewport_height,
        (visible_rows_spec(viewport_height, row_height) + 1) * row_height > viewport_height,
{
    let n = viewport_height / row_height;
    assert(n * row_height <= viewport_height) by (nonlinear_arith)
        requires viewport_height >= 0, row_height >= 1, n == viewport_height / row_height;
    assert((n + 1) * row_height > viewport_height) by (nonlinear_arith)
        requires viewport_height >= 0, row_height >= 1, n == viewport_height / row_height;
    assert(viewport_height >= row_height ==> n >= 1) by (nonlinear_arith)
        requires viewport_height >= 0, row_height >= 1, n == viewport_height / row_height;
    assert(n >= 0) by (nonlinear_arith)
        requires viewport_height >= 0, row_height >= 1, n == viewport_height / row_height;
    if n < 1 {
        assert(n == 0);
        assert(visible_rows_spec(viewport_height, row_height) == 1);
        assert(2 * row_height > viewport_height);
    } else {
        assert(visible_rows_spec(viewport_height, row_height) == n);
    }
}

} // verus!
