//! Reading `git log --graph` output for display: where the graph starts,
//! where a line's commit hash sits, which branch lane colours it; and mapping
//! a click in a wrapped text area to a position in its lines.

use vstd::prelude::*;
use crate::text::{char_is_ascii_hexdigit, chars_of, is_ascii_hexdigit};

verus! {

/// The bytes `c` takes in UTF-8.
pub open spec fn utf8_len(c: char) -> nat {
    if (c as u32) < 0x80 {
        1
    } else if (c as u32) < 0x800 {
        2
    } else if (c as u32) < 0x10000 {
        3
    } else {
        4
    }
}

/// The byte offset of character `k` of `s` in its UTF-8 encoding.
pub open spec fn byte_offset(s: Seq<char>, k: int) -> nat
    decreases k,
{
    if k <= 0 || s.len() == 0 {
        0
    } else {
        byte_offset(s, k - 1) + utf8_len(s[k - 1])
    }
}

fn char_utf8_len(c: char) -> (n: usize)
    ensures
        n == utf8_len(c),
{
    let v = c as u32;
    if v < 0x80 {
        1
    } else if v < 0x800 {
        2
    } else if v < 0x10000 {
        3
    } else {
        4
    }
}

proof fn lemma_byte_offset_monotonic(s: Seq<char>, j: int, k: int)
    requires
        0 <= j <= k <= s.len(),
    ensures
        byte_offset(s, j) <= byte_offset(s, k),
    decreases k - j,
{
    if j < k {
        lemma_byte_offset_monotonic(s, j, k - 1);
    }
}

/// A character git draws the commit graph with.
pub open spec fn is_graph_char(c: char) -> bool {
    c == '|' || c == '\\' || c == ',' || c == '/' || c == '*'
}

/// A character that marks a commit or a lane: where the graph column starts.
pub open spec fn is_graph_anchor(c: char) -> bool {
    c == '*' || c == '|'
}

/// `off` is the byte offset of a graph anchor on one of the lines.
pub open spec fn anchor_at(lines: Seq<Seq<char>>, off: int) -> bool {
    exists|i: int, k: int| 0 <= i < lines.len() && 0 <= k < lines[i].len()
        && is_graph_anchor(lines[i][k]) && #[trigger] byte_offset(lines[i], k) == off
}

/// The characters of each line.
pub open spec fn line_views(lines: Seq<String>) -> Seq<Seq<char>> {
    lines.map_values(|l: String| l@)
}

/// Some line holds a graph anchor.
pub open spec fn has_anchor(lines: Seq<Seq<char>>) -> bool {
    exists|i: int, k: int| 0 <= i < lines.len() && 0 <= k < lines[i].len() && #[trigger] is_graph_anchor(lines[i][k])
}

/// The leftmost byte column of a graph anchor (`*` or `|`) over all lines, or
/// 0 when there is none.
#[verifier::spinoff_prover]
#[verifier::rlimit(40)]
pub fn git_graph_base_column(lines: &Vec<String>) -> (col: usize)
    requires
        forall|i: int| 0 <= i < lines@.len() ==> byte_offset(#[trigger] lines@[i]@, lines@[i]@.len() as int) <= usize::MAX,
    ensures
        has_anchor(line_views(lines@)) ==> anchor_at(line_views(lines@), col as int),
        !has_anchor(line_views(lines@)) ==> col == 0,
        forall|off: int| #[trigger] anchor_at(line_views(lines@), off) ==> col <= off,
{
    let ghost views = line_views(lines@);
    let mut found = false;
    let mut best: usize = 0;
    let mut i: usize = 0;
    while i < lines.len()
        invariant
            i <= lines@.len(),
            views == line_views(lines@),
            forall|x: int| 0 <= x < lines@.len() ==> byte_offset(#[trigger] lines@[x]@, lines@[x]@.len() as int) <= usize::MAX,
            found ==> anchor_at(views, best as int),
            forall|x: int, k: int| #![trigger views[x][k]] 0 <= x < i && 0 <= k < views[x].len() && is_graph_anchor(views[x][k])
                ==> found && best <= byte_offset(views[x], k),
        decreases lines.len() - i,
    {
        let line = chars_of(lines[i].as_str());
        assert(line@ == views[i as int]);
        let mut offset: usize = 0;
        let mut k: usize = 0;
        while k < line.len()
            invariant
                i < lines@.len(),
                views == line_views(lines@),
                line@ == views[i as int],
                k <= line@.len(),
                offset == byte_offset(line@, k as int),
                byte_offset(line@, line@.len() as int) <= usize::MAX,
                found ==> anchor_at(views, best as int),
                forall|x: int, j: int| #![trigger views[x][j]] 0 <= x < i && 0 <= j < views[x].len() && is_graph_anchor(views[x][j])
                    ==> found && best <= byte_offset(views[x], j),
                forall|j: int| #![trigger line@[j]] 0 <= j < k && is_graph_anchor(line@[j])
                    ==> found && best <= byte_offset(line@, j),
            decreases line.len() - k,
        {
            let c = line[k];
            if c == '*' || c == '|' {
                assert(anchor_at(views, offset as int)) by {
                    assert(is_graph_anchor(views[i as int][k as int]));
                    assert(byte_offset(views[i as int], k as int) == offset);
                }
                if !found || offset < best {
                    best = offset;
                    found = true;
                }
            }
            proof {
                lemma_byte_offset_monotonic(line@, k + 1, line@.len() as int);
            }
            offset = offset + char_utf8_len(c);
            k = k + 1;
        }
        i = i + 1;
    }
    if found {
        assert forall|off: int| #[trigger] anchor_at(views, off) implies best <= off by {
            let (x, j) = choose|x: int, j: int| 0 <= x < views.len() && 0 <= j < views[x].len()
                && is_graph_anchor(views[x][j]) && #[trigger] byte_offset(views[x], j) == off;
            assert(is_graph_anchor(views[x][j]));
        }
        best
    } else {
        assert(!has_anchor(views)) by {
            if has_anchor(views) {
                let (x, j) = choose|x: int, j: int| 0 <= x < views.len() && 0 <= j < views[x].len()
                    && #[trigger] is_graph_anchor(views[x][j]);
                assert(is_graph_anchor(views[x][j]));
            }
        }
        assert forall|off: int| #[trigger] anchor_at(views, off) implies 0 <= off by {
            let (x, j) = choose|x: int, j: int| 0 <= x < views.len() && 0 <= j < views[x].len()
                && is_graph_anchor(views[x][j]) && #[trigger] byte_offset(views[x], j) == off;
            assert(byte_offset(views[x], j) >= 0);
        }
        0
    }
}

/// Where the run of hex digits starting at `p` ends.
pub open spec fn hex_run_end(s: Seq<char>, p: int) -> int
    decreases s.len() - p,
{
    if p < 0 || p >= s.len() || !is_ascii_hexdigit(s[p]) {
        p
    } else {
        hex_run_end(s, p + 1)
    }
}

proof fn lemma_hex_run_end(s: Seq<char>, p: int, e: int)
    requires
        0 <= p <= e <= s.len(),
        forall|j: int| p <= j < e ==> is_ascii_hexdigit(#[trigger] s[j]),
        e == s.len() || !is_ascii_hexdigit(s[e]),
    ensures
        hex_run_end(s, p) == e,
    decreases e - p,
{
    if p < e {
        lemma_hex_run_end(s, p + 1, e);
    }
}

/// A commit hash starts at `p`: at least seven hex digits, each side a space
/// or the end of the line.
pub open spec fn is_hash_start(s: Seq<char>, p: int) -> bool {
    let e = hex_run_end(s, p);
    &&& 0 <= p < s.len()
    &&& is_ascii_hexdigit(s[p])
    &&& (p == 0 || s[p - 1] == ' ')
    &&& e - p >= 7
    &&& (e == s.len() || s[e] == ' ')
}

/// The byte range of the first commit hash in `line`, if it has one.
pub fn find_commit_hash_range(line: &str) -> (r: Option<(usize, usize)>)
    requires
        byte_offset(line@, line@.len() as int) <= usize::MAX,
    ensures
        r is None <==> forall|p: int| !is_hash_start(line@, p),
        r matches Some((start, end)) ==> exists|p: int| {
            &&& #[trigger] is_hash_start(line@, p)
            &&& forall|q: int| 0 <= q < p ==> !is_hash_start(line@, q)
            &&& start == byte_offset(line@, p)
            &&& end == byte_offset(line@, hex_run_end(line@, p))
        },
{
    let chars = chars_of(line);
    let ghost s = line@;
    let mut position: usize = 0;
    let mut offset: usize = 0;
    while position < chars.len()
        invariant
            chars@ == s,
            s == line@,
            byte_offset(s, s.len() as int) <= usize::MAX,
            position <= s.len(),
            offset == byte_offset(s, position as int),
            forall|q: int| 0 <= q < position ==> !is_hash_start(s, q),
        decreases chars.len() - position,
    {
        proof {
            lemma_byte_offset_monotonic(s, position + 1, s.len() as int);
        }
        let c = chars[position];
        let start_ok = char_is_ascii_hexdigit(c) && (position == 0 || chars[position - 1] == ' ');
        if start_ok {
            let mut end = position;
            let mut end_offset = offset;
            while end < chars.len() && char_is_ascii_hexdigit(chars[end])
                invariant
                    chars@ == s,
                    byte_offset(s, s.len() as int) <= usize::MAX,
                    position <= end <= s.len(),
                    end_offset == byte_offset(s, end as int),
                    forall|j: int| position <= j < end ==> is_ascii_hexdigit(#[trigger] s[j]),
                decreases chars.len() - end,
            {
                proof {
                    lemma_byte_offset_monotonic(s, end + 1, s.len() as int);
                }
                end_offset = end_offset + char_utf8_len(chars[end]);
                end = end + 1;
            }
            proof {
                lemma_hex_run_end(s, position as int, end as int);
            }
            if end - position >= 7 && (end == chars.len() || chars[end] == ' ') {
                assert(is_hash_start(s, position as int));
                return Some((offset, end_offset));
            }
        }
        offset = offset + char_utf8_len(c);
        position = position + 1;
    }
    None
}

/// The lane whose colour a character at `index` of the graph takes: lanes
/// are two columns wide, counted from `base`.
pub open spec fn lane_of(index: int, base: int) -> int {
    (if index > base { index - base } else { 0 }) / 2
}

/// The lane of the last graph character before the hash (`prefix` is the
/// line up to the hash), if the prefix has one.
pub fn hash_lane(prefix: &str, graph_base_column: usize) -> (lane: Option<usize>)
    ensures
        lane is None <==> forall|k: int| 0 <= k < prefix@.len() ==> !is_graph_char(#[trigger] prefix@[k]),
        lane matches Some(l) ==> exists|k: int| {
            &&& 0 <= k < prefix@.len()
            &&& #[trigger] is_graph_char(prefix@[k])
            &&& forall|j: int| k < j < prefix@.len() ==> !is_graph_char(#[trigger] prefix@[j])
            &&& l == lane_of(k, graph_base_column as int)
        },
{
    let chars = chars_of(prefix);
    let mut k = chars.len();
    while k > 0
        invariant
            chars@ == prefix@,
            k <= chars@.len(),
            forall|j: int| k <= j < chars@.len() ==> !is_graph_char(#[trigger] chars@[j]),
        decreases k,
    {
        let c = chars[k - 1];
        if c == '|' || c == '\\' || c == ',' || c == '/' || c == '*' {
            let index = k - 1;
            let shifted = if index > graph_base_column { index - graph_base_column } else { 0 };
            assert(is_graph_char(prefix@[index as int]));
            return Some(shifted / 2);
        }
        k = k - 1;
    }
    None
}

/// The lane a graph character at `index` is coloured by.
pub fn graph_char_lane(index: usize, graph_base_column: usize) -> (lane: usize)
    ensures
        lane == lane_of(index as int, graph_base_column as int),
{
    let shifted = if index > graph_base_column { index - graph_base_column } else { 0 };
    shifted / 2
}

pub fn is_git_graph_character(character: char) -> (r: bool)
    ensures
        r == is_graph_char(character),
{
    character == '|' || character == '\\' || character == ',' || character == '/' || character == '*'
}

/// Terminal rows a line of `count` characters takes when wrapped at `width`
/// columns (at least one).
pub open spec fn wrapped_rows(count: int, width: int) -> int {
    let rows = if count % width == 0 { count / width } else { count / width + 1 };
    if rows < 1 { 1 } else { rows }
}

/// Where a click lands, scanning lines from `i` with `consumed` rows above.
pub open spec fn click_from(counts: Seq<int>, i: int, consumed: int, row: int, col: int, width: int) -> (int, int)
    decreases counts.len() - i,
{
    if i < 0 || i >= counts.len() {
        let last = if counts.len() > 0 { counts.len() - 1 } else { 0 };
        (last, if counts.len() > 0 { counts[last] } else { 0 })
    } else {
        let rows = wrapped_rows(counts[i], width);
        if consumed + rows > row {
            let c = (row - consumed) * width + col;
            (i, if c < counts[i] { c } else { counts[i] })
        } else {
            click_from(counts, i + 1, consumed + rows, row, col, width)
        }
    }
}

/// The character count of each line.
pub open spec fn char_counts(lines: Seq<String>) -> Seq<int> {
    lines.map_values(|l: String| l@.len() as int)
}

proof fn lemma_row_start_within(count: int, width: int, k: int)
    requires
        width >= 1,
        count >= 0,
        0 <= k < wrapped_rows(count, width),
    ensures
        k * width <= count,
        count > 0 ==> k * width < count,
{
    let q = count / width;
    let r = count % width;
    assert(count == q * width + r && 0 <= r < width && q >= 0) by (nonlinear_arith)
        requires width >= 1, count >= 0, q == count / width, r == count % width;
    if count == 0 {
        assert(q == 0 && r == 0) by (nonlinear_arith)
            requires count == q * width + r, 0 <= r < width, q >= 0, width >= 1, count == 0;
        assert(k == 0);
        assert(k * width == 0) by (nonlinear_arith) requires k == 0;
    } else {
        let bound = if r == 0 { q - 1 } else { q };
        if r == 0 {
            assert(q >= 1) by (nonlinear_arith)
                requires count == q * width + r, r == 0, count > 0, width >= 1;
        }
        assert(k <= bound);
        assert(k * width <= bound * width) by (nonlinear_arith)
            requires k <= bound, width >= 1;
        assert(bound * width < count) by (nonlinear_arith)
            requires
                count == q * width + r,
                0 <= r < width,
                r == 0 ==> bound == q - 1,
                r != 0 ==> bound == q,
                width >= 1;
    }
}

/// The `(line, column)` a click lands on in a text area whose lines wrap at
/// `content_width` columns (at least one), scrolled to line `start_row`:
/// the click is `relative_row` rows below the first shown row and
/// `clicked_col` columns in. Past the last line it lands at the end of it.
pub fn textarea_click_position(
    lines: &Vec<String>,
    start_row: usize,
    content_width: usize,
    relative_row: usize,
    clicked_col: usize,
) -> (r: (usize, usize))
    requires
        start_row <= lines@.len(),
    ensures
        (r.0 as int, r.1 as int) == click_from(
            char_counts(lines@),
            start_row as int,
            0,
            relative_row as int,
            clicked_col as int,
            if content_width > 1 { content_width as int } else { 1 },
        ),
{
    let cw = if content_width > 1 { content_width } else { 1 };
    let ghost counts = char_counts(lines@);
    let ghost width = cw as int;
    let mut consumed: usize = 0;
    let mut i = start_row;
    while i < lines.len()
        invariant
            start_row <= i <= lines@.len(),
            counts == char_counts(lines@),
            width == cw as int,
            cw == (if content_width > 1 { content_width } else { 1 }),
            cw >= 1,
            consumed <= relative_row,
            click_from(counts, start_row as int, 0, relative_row as int, clicked_col as int, width)
                == click_from(counts, i as int, consumed as int, relative_row as int, clicked_col as int, width),
        decreases lines.len() - i,
    {
        let count = lines[i].as_str().unicode_len();
        assert(counts[i as int] == count);
        let rows_raw = if count % cw == 0 {
            count / cw
        } else {
            assert(cw >= 2);
            assert(count / cw <= count / 2) by (nonlinear_arith)
                requires cw >= 2, count >= 0;
            count / cw + 1
        };
        let rows = if rows_raw < 1 { 1 } else { rows_raw };
        assert(rows == wrapped_rows(count as int, width));
        if rows > relative_row - consumed {
            let row_within_line = relative_row - consumed;
            proof {
                lemma_row_start_within(count as int, width, row_within_line as int);
            }
            let before: usize = row_within_line * cw;
            let col = if clicked_col >= count - before { count } else { before + clicked_col };
            proof {
                let c = (relative_row - consumed) * width + clicked_col;
                assert(before as int == (relative_row - consumed) * width);
                assert(click_from(counts, i as int, consumed as int, relative_row as int, clicked_col as int, width)
                    == (i as int, if c < counts[i as int] { c } else { counts[i as int] }));
                assert(col as int == (if c < counts[i as int] { c } else { counts[i as int] }));
                assert(width == (if content_width > 1 { content_width as int } else { 1 }));
            }
            return (i, col);
        }
        consumed = consumed + rows;
        i = i + 1;
    }
    let last = if lines.len() > 0 { lines.len() - 1 } else { 0 };
    let last_len = if lines.len() > 0 { lines[last].as_str().unicode_len() } else { 0 };
    (last, last_len)
}

} // verus!
