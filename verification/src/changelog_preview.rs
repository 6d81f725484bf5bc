//! The changelog preview dialog's text: the release message typed into it,
//! the combined preview of every changelog it will write, and its scrolling.

use vstd::prelude::*;
use crate::repo_files::{join_with_newlines, text_lines, text_lines_of};
use crate::std_changelog::{string_views, vec_views};
use crate::text::{chars_of, join_with, string_of, trim, trimmed_chars};

verus! {

/// One changelog the preview shows: where it goes, and its rendered Markdown.
#[derive(Clone, Debug)]
pub struct PreviewEntry {
    pub repo_root: String,
    pub changelog_path: String,
    pub rendered: String,
}

/// The release message: its lines joined with line feeds, or nothing when it
/// is blank.
pub open spec fn release_message_spec(lines: Seq<Seq<char>>) -> Seq<char> {
    let joined = join_with(lines, seq!['\n']);
    if trim(joined).len() == 0 { Seq::empty() } else { joined }
}

/// The release message typed into the editor, whose lines are `lines`.
pub fn release_message_value(lines: &Vec<String>) -> (r: String)
    ensures
        r@ == release_message_spec(string_views(lines@)),
{
    let mut parts: Vec<Vec<char>> = Vec::new();
    let mut i: usize = 0;
    while i < lines.len()
        invariant
            i <= lines@.len(),
            vec_views(parts@) == string_views(lines@).take(i as int),
        decreases lines.len() - i,
    {
        let piece = chars_of(lines[i].as_str());
        push_line(&mut parts, piece);
        i = i + 1;
        proof {
            assert(string_views(lines@).take(i as int) =~= string_views(lines@).take(i - 1).push(lines@[i - 1]@));
        }
    }
    proof {
        assert(string_views(lines@).take(lines@.len() as int) =~= string_views(lines@));
    }
    let joined = join_with_newlines(&parts);
    let text = string_of(&joined);
    let trimmed = trimmed_chars(text.as_str());
    if trimmed.len() == 0 { String::new() } else { text }
}

/// The lines the preview shows for entry `e`: with several entries, a header
/// naming the repository and the changelog path, then a blank line; then the
/// rendered Markdown; and a blank line before the next entry.
pub open spec fn entry_block(root: Seq<char>, path: Seq<char>, rendered: Seq<char>, several: bool, last: bool) -> Seq<Seq<char>> {
    (if several { seq!["### Repo: "@ + root, "Path: `"@ + path + "`"@, Seq::<char>::empty()] } else { Seq::<Seq<char>>::empty() })
        + text_lines(rendered)
        + (if last { Seq::<Seq<char>>::empty() } else { seq![Seq::<char>::empty()] })
}

/// The preview's lines for the first `k` entries.
pub open spec fn preview_lines(entries: Seq<PreviewEntry>, k: int) -> Seq<Seq<char>>
    decreases k,
{
    if k <= 0 {
        Seq::empty()
    } else {
        let e = entries[k - 1];
        preview_lines(entries, k - 1)
            + entry_block(e.repo_root@, e.changelog_path@, e.rendered@, entries.len() > 1, k == entries.len())
    }
}

fn push_line(lines: &mut Vec<Vec<char>>, line: Vec<char>)
    ensures
        vec_views(final(lines)@) == vec_views(old(lines)@).push(line@),
{
    lines.push(line);
    proof {
        assert(vec_views(final(lines)@) =~= vec_views(old(lines)@).push(line@));
    }
}

fn push_all(lines: &mut Vec<Vec<char>>, more: Vec<Vec<char>>)
    ensures
        vec_views(final(lines)@) == vec_views(old(lines)@) + vec_views(more@),
{
    let mut j: usize = 0;
    let ghost start = vec_views(lines@);
    while j < more.len()
        invariant
            j <= more@.len(),
            vec_views(lines@) == start + vec_views(more@).take(j as int),
        decreases more.len() - j,
    {
        let line = more[j].clone();
        proof {
            assert(line@ == vec_views(more@)[j as int]);
        }
        push_line(lines, line);
        j = j + 1;
        proof {
            assert(vec_views(more@).take(j as int) =~= vec_views(more@).take(j - 1).push(vec_views(more@)[j - 1]));
            assert(vec_views(lines@) =~= start + vec_views(more@).take(j as int));
        }
    }
    proof {
        assert(vec_views(more@).take(more@.len() as int) =~= vec_views(more@));
    }
}

fn concat2(a: &str, b: &str) -> (r: Vec<char>)
    ensures
        r@ == a@ + b@,
{
    let mut r = chars_of(a);
    let bv = chars_of(b);
    r.extend_from_slice(bv.as_slice());
    r
}

fn concat3(a: &str, b: &str, c: &str) -> (r: Vec<char>)
    ensures
        r@ == a@ + b@ + c@,
{
    let mut r = chars_of(a);
    let bv = chars_of(b);
    let cv = chars_of(c);
    r.extend_from_slice(bv.as_slice());
    r.extend_from_slice(cv.as_slice());
    r
}

/// The whole preview: every entry's block, joined with line feeds.
pub fn combined_preview_markdown(entries: &Vec<PreviewEntry>) -> (r: String)
    ensures
        r@ == join_with(preview_lines(entries@, entries@.len() as int), seq!['\n']),
{
    proof {
        reveal_strlit("### Repo: ");
        reveal_strlit("Path: `");
        reveal_strlit("`");
    }
    let several = entries.len() > 1;
    let mut lines: Vec<Vec<char>> = Vec::new();
    let mut i: usize = 0;
    while i < entries.len()
        invariant
            i <= entries@.len(),
            several == (entries@.len() > 1),
            vec_views(lines@) == preview_lines(entries@, i as int),
        decreases entries.len() - i,
    {
        let ghost before = vec_views(lines@);
        let e = &entries[i];
        if several {
            let repo_line = concat2("### Repo: ", e.repo_root.as_str());
            let path_line = concat3("Path: `", e.changelog_path.as_str(), "`");
            push_line(&mut lines, repo_line);
            push_line(&mut lines, path_line);
            let blank: Vec<char> = Vec::new();
            push_line(&mut lines, blank);
        }
        let ghost header = vec_views(lines@);
        let rendered = chars_of(e.rendered.as_str());
        let body = text_lines_of(&rendered);
        push_all(&mut lines, body);
        if i + 1 < entries.len() {
            push_line(&mut lines, Vec::new());
        }
        proof {
            let block = entry_block(e.repo_root@, e.changelog_path@, e.rendered@, several, i + 1 == entries@.len());
            if several {
                assert(header =~= before.push("### Repo: "@ + e.repo_root@).push("Path: `"@ + e.changelog_path@ + "`"@).push(Seq::<char>::empty()));
                assert(seq!["### Repo: "@ + e.repo_root@, "Path: `"@ + e.changelog_path@ + "`"@, Seq::<char>::empty()]
                    =~= seq!["### Repo: "@ + e.repo_root@].push("Path: `"@ + e.changelog_path@ + "`"@).push(Seq::<char>::empty()));
                assert(header =~= before + seq!["### Repo: "@ + e.repo_root@, "Path: `"@ + e.changelog_path@ + "`"@, Seq::<char>::empty()]);
            } else {
                assert(header =~= before);
            }
            assert(vec_views(lines@) =~= before + block);
        }
        i = i + 1;
    }
    let joined = join_with_newlines(&lines);
    string_of(&joined)
}

/// The furthest the preview scrolls: its last line at the top.
pub open spec fn max_preview_scroll(line_count: int) -> int {
    let last = if line_count > 1 { line_count - 1 } else { 0 };
    if last < 65535 { last } else { 65535 }
}

pub open spec fn scrolled_preview(scroll: int, delta: int, line_count: int) -> int {
    let moved = if delta < 0 {
        if scroll + delta > 0 { scroll + delta } else { 0 }
    } else {
        if scroll + delta < 65535 { scroll + delta } else { 65535 }
    };
    if moved < max_preview_scroll(line_count) { moved } else { max_preview_scroll(line_count) }
}

/// Scrolls the preview of `line_count` lines by `delta` lines, within its lines.
pub fn scroll_changelog_preview(scroll: u16, delta: i16, line_count: usize) -> (r: u16)
    ensures
        r == scrolled_preview(scroll as int, delta as int, line_count as int),
{
    let max_scroll: u16 = if line_count > 65536 { 65535 } else if line_count > 1 { (line_count - 1) as u16 } else { 0 };
    let moved = if delta < 0 {
        let back: u16 = if delta == i16::MIN { 32768 } else { (-delta) as u16 };
        scroll.saturating_sub(back)
    } else {
        scroll.saturating_add(delta as u16)
    };
    if moved < max_scroll { moved } else { max_scroll }
}

/// Scrolls the preview of `line_count` lines to its end.
pub fn scroll_changelog_preview_to_end(line_count: usize) -> (r: u16)
    ensures
        r == max_preview_scroll(line_count as int),
{
    if line_count > 65536 { 65535 } else if line_count > 1 { (line_count - 1) as u16 } else { 0 }
}

} // verus!
