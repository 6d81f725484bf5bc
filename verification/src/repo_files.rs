//! Small text files the dashboard keeps in repositories: the `.gitignore`
//! entries it relies on, and the sibling sections of branched release notes.

use vstd::prelude::*;
use crate::scope_draft::BranchScopeKind;
use crate::std_changelog::vec_views;
use crate::text::{
    append_str, chars_of, contains_char, join_with, lemma_leading_count_bounds, lemma_trim_forms,
    lemma_split_char_nonempty, lemma_trailing_count_bounds, leading_count, split_char, split_vec,
    string_of, trailing_count, trim, trim_vec, trimmed_chars, trimmed_string, vec_eq, ws, Trimmer,
};

verus! {

/// A line as `str::lines` gives it when a line feed followed it: without a
/// carriage return just before that line feed.
pub open spec fn strip_cr(line: Seq<char>) -> Seq<char> {
    if line.len() > 0 && line.last() == '\r' { line.drop_last() } else { line }
}

/// What `str::lines` yields: the text split at line feeds, each line without
/// the carriage return of a CRLF ending, no line after a final line feed.
pub open spec fn text_lines(s: Seq<char>) -> Seq<Seq<char>> {
    let parts = split_char(s, '\n');
    if s.len() == 0 {
        seq![]
    } else if s.last() == '\n' {
        parts.drop_last().map_values(|p: Seq<char>| strip_cr(p))
    } else {
        parts.drop_last().map_values(|p: Seq<char>| strip_cr(p)).push(parts.last())
    }
}

fn strip_cr_vec(v: Vec<char>) -> (r: Vec<char>)
    ensures
        r@ == strip_cr(v@),
{
    let mut r = v;
    if r.len() > 0 && r[r.len() - 1] == '\r' {
        r.pop();
    }
    r
}

/// The lines of `text`, as `str::lines` splits them.
pub fn text_lines_of(text: &Vec<char>) -> (lines: Vec<Vec<char>>)
    ensures
        vec_views(lines@) == text_lines(text@),
{
    let parts = split_vec(text, '\n');
    let ghost pv = split_char(text@, '\n');
    proof {
        crate::text::lemma_split_char_nonempty(text@, '\n');
    }
    if text.len() == 0 {
        return Vec::new();
    }
    let n = parts.len();
    let rest = parts;
    // Every part but the last was followed by a line feed.
    let mut collected: Vec<Vec<char>> = Vec::new();
    let mut k: usize = 0;
    while k < n - 1
        invariant
            n == pv.len(),
            n >= 1,
            vec_views(rest@) == pv,
            rest@.len() == n,
            k <= n - 1,
            vec_views(collected@) == pv.take(k as int).map_values(|p: Seq<char>| strip_cr(p)),
        decreases n - 1 - k,
    {
        let piece = rest[k].clone();
        proof {
            assert(piece@ == rest@[k as int]@);
            assert(vec_views(rest@)[k as int] == rest@[k as int]@);
        }
        let stripped = strip_cr_vec(piece);
        let ghost before = collected@;
        proof {
            assert(vec_views(before).len() == before.len());
            assert(pv.take(k as int).map_values(|p: Seq<char>| strip_cr(p)).len() == k);
            assert(before.len() == k);
        }
        collected.push(stripped);
        proof {
            assert(collected@.len() == k + 1);
            assert forall|j: int| 0 <= j < k + 1 implies vec_views(collected@)[j] == strip_cr(pv[j]) by {
                if j < k {
                    assert(collected@[j] == before[j]);
                    assert(vec_views(before)[j] == pv.take(k as int).map_values(|p: Seq<char>| strip_cr(p))[j]);
                } else {
                    assert(collected@[j] == stripped);
                }
            }
        }
        k = k + 1;
        proof {
            assert(vec_views(collected@) =~= pv.take(k as int).map_values(|p: Seq<char>| strip_cr(p)));
        }
    }
    proof {
        assert(pv.take((n - 1) as int) =~= pv.drop_last());
    }
    if text[text.len() - 1] != '\n' {
        let last = rest[n - 1].clone();
        proof {
            assert(last@ == pv.last());
        }
        collected.push(last);
        proof {
            assert(vec_views(collected@) =~= text_lines(text@));
        }
    }
    collected
}

/// `parts` joined with line feeds.
pub fn join_with_newlines(parts: &Vec<Vec<char>>) -> (r: Vec<char>)
    ensures
        r@ == join_with(vec_views(parts@), seq!['\n']),
{
    let mut out: Vec<char> = Vec::new();
    let mut i: usize = 0;
    while i < parts.len()
        invariant
            i <= parts@.len(),
            out@ == join_with(vec_views(parts@).take(i as int), seq!['\n']),
        decreases parts.len() - i,
    {
        let ghost before = out@;
        if i > 0 {
            out.push('\n');
        }
        let mut k: usize = 0;
        let ghost mid = out@;
        while k < parts[i].len()
            invariant
                i < parts@.len(),
                k <= parts@[i as int]@.len(),
                out@ == mid + parts@[i as int]@.take(k as int),
            decreases parts@[i as int]@.len() - k,
        {
            out.push(parts[i][k]);
            k = k + 1;
            proof {
                assert(out@ =~= mid + parts@[i as int]@.take(k as int));
            }
        }
        proof {
            let vs = vec_views(parts@);
            assert(parts@[i as int]@.take(k as int) =~= vs[i as int]);
            assert(vs.take(i + 1).drop_last() =~= vs.take(i as int));
            if i == 0 {
                assert(vs.take(1) =~= seq![vs[0]]);
                assert(out@ =~= vs[0]);
            } else {
                assert(out@ =~= before + seq!['\n'] + vs[i as int]);
            }
        }
        i = i + 1;
    }
    assert(vec_views(parts@).take(parts@.len() as int) =~= vec_views(parts@));
    out
}

/// `parts` joined with line feeds, and a final line feed.
fn join_lines(parts: &Vec<Vec<char>>) -> (r: String)
    ensures
        r@ == join_with(vec_views(parts@), seq!['\n']) + seq!['\n'],
{
    let mut out = join_with_newlines(parts);
    out.push('\n');
    string_of(&out)
}

/// Some line, trimmed, is `entry`.
pub open spec fn has_line(lines: Seq<Seq<char>>, entry: Seq<char>) -> bool {
    exists|i: int| 0 <= i < lines.len() && trim(#[trigger] lines[i]) == entry
}

/// The `.gitignore` text with `entry` (trimmed) added, or `None` when a line
/// already holds it: the entry goes on a line of its own after a blank
/// separator line (unless the file ends with a blank line or is empty), and
/// the text ends with a line feed.
pub open spec fn gitignore_with_entry_spec(existing: Seq<char>, entry: Seq<char>) -> Option<Seq<char>> {
    let lines = text_lines(existing);
    let wanted = trim(entry);
    if has_line(lines, wanted) {
        None
    } else {
        let spaced = if lines.len() > 0 && lines.last().len() > 0 { lines.push(Seq::empty()) } else { lines };
        Some(join_with(spaced.push(wanted), seq!['\n']) + seq!['\n'])
    }
}

/// The new `.gitignore` text holding `entry`, from the current text (empty
/// when there is no file); `None` when nothing needs writing.
pub fn gitignore_with_entry(existing: &str, entry: &str) -> (r: Option<String>)
    ensures
        match gitignore_with_entry_spec(existing@, entry@) {
            Some(t) => r matches Some(s) && s@ == t,
            None => r is None,
        },
{
    let text = chars_of(existing);
    let mut lines = text_lines_of(&text);
    let wanted = trimmed_chars(entry);
    let mut i: usize = 0;
    while i < lines.len()
        invariant
            i <= lines@.len(),
            vec_views(lines@) == text_lines(existing@),
            wanted@ == trim(entry@),
            forall|j: int| 0 <= j < i ==> trim(#[trigger] vec_views(lines@)[j]) != wanted@,
        decreases lines.len() - i,
    {
        let trimmed = trim_vec(&lines[i], Trimmer::Whitespace);
        if vec_eq(&trimmed, &wanted) {
            assert(trim(vec_views(lines@)[i as int]) == wanted@);
            return None;
        }
        i = i + 1;
    }
    let ghost old_lines = vec_views(lines@);
    if lines.len() > 0 && lines[lines.len() - 1].len() > 0 {
        lines.push(Vec::new());
        proof {
            assert(vec_views(lines@) =~= old_lines.push(Seq::empty()));
        }
    }
    let ghost spaced = vec_views(lines@);
    lines.push(wanted);
    proof {
        assert(vec_views(lines@) =~= spaced.push(trim(entry@)));
    }
    Some(join_lines(&lines))
}

/// The last piece of `x + w` split at line feeds is `w`, when `x` is empty or
/// ends with a line feed and `w` holds none.
proof fn lemma_split_last(x: Seq<char>, w: Seq<char>)
    requires
        x.len() == 0 || x.last() == '\n',
        !contains_char(w, '\n'),
    ensures
        split_char(x + w, '\n').len() >= 1,
        split_char(x + w, '\n').last() == w,
    decreases w.len(),
{
    lemma_split_char_nonempty(x + w, '\n');
    if w.len() == 0 {
        assert(x + w =~= x);
        if x.len() > 0 {
            lemma_split_char_nonempty(x.drop_last(), '\n');
        }
    } else {
        let shorter = w.drop_last();
        assert(!contains_char(shorter, '\n')) by {
            if contains_char(shorter, '\n') {
                let i = choose|i: int| 0 <= i < shorter.len() && shorter[i] == '\n';
                assert(w[i] == '\n');
            }
        }
        assert(w.last() != '\n') by {
            if w.last() == '\n' {
                assert(w[w.len() - 1] == '\n');
            }
        }
        lemma_split_last(x, shorter);
        assert((x + w).drop_last() =~= x + shorter);
        assert((x + w).last() == w.last());
        assert(shorter.push(w.last()) =~= w);
    }
}

/// Trimming twice is trimming once.
proof fn lemma_trim_idempotent(s: Seq<char>)
    ensures
        trim(trim(s)) == trim(s),
{
    let p = ws();
    let u = s.skip(leading_count(s, p) as int);
    lemma_leading_count_bounds(s, p);
    lemma_trailing_count_bounds(u, p);
    lemma_trim_forms(s, p);
    lemma_trim_forms(u, p);
    let t = trim(s);
    assert(t == u.take(u.len() - trailing_count(u, p)));
    if t.len() > 0 {
        assert(t[0] == s[leading_count(s, p) as int]);
        assert(!p(t[0]));
        assert(t.last() == u[u.len() - trailing_count(u, p) - 1]);
        assert(!p(t.last()));
    }
    assert(leading_count(t, p) == 0);
    assert(t.skip(0) =~= t);
    assert(trailing_count(t, p) == 0);
    assert(t.take(t.len() as int) =~= t);
}

/// A trimmed entry holds no line feed or carriage return when the entry does not.
proof fn lemma_trim_keeps_absence(entry: Seq<char>, c: char)
    requires
        !contains_char(entry, c),
    ensures
        !contains_char(trim(entry), c),
{
    let p = ws();
    let l = leading_count(entry, p) as int;
    lemma_leading_count_bounds(entry, p);
    let u = entry.skip(l);
    lemma_trailing_count_bounds(u, p);
    lemma_trim_forms(entry, p);
    lemma_trim_forms(u, p);
    let t = trim(entry);
    if contains_char(t, c) {
        let i = choose|i: int| 0 <= i < t.len() && t[i] == c;
        assert(t[i] == u[i]);
        assert(u[i] == entry[l + i]);
    }
}

/// Adding an entry that was just added changes nothing: the second time, the
/// file already holds it (for an entry on one line, without carriage returns).
pub proof fn law_gitignore_entry_added_once(existing: Seq<char>, entry: Seq<char>)
    requires
        !contains_char(entry, '\n'),
        !contains_char(entry, '\r'),
    ensures
        gitignore_with_entry_spec(existing, entry) matches Some(updated)
            ==> gitignore_with_entry_spec(updated, entry) is None,
{
    if let Some(updated) = gitignore_with_entry_spec(existing, entry) {
        let lines = text_lines(existing);
        let wanted = trim(entry);
        lemma_trim_idempotent(entry);
        lemma_trim_keeps_absence(entry, '\n');
        lemma_trim_keeps_absence(entry, '\r');
        let spaced = if lines.len() > 0 && lines.last().len() > 0 { lines.push(Seq::empty()) } else { lines };
        let parts = spaced.push(wanted);
        let joined = join_with(parts, seq!['\n']);
        assert(updated == joined + seq!['\n']);
        let head: Seq<char> = if parts.len() == 1 {
            Seq::empty()
        } else {
            join_with(parts.drop_last(), seq!['\n']) + seq!['\n']
        };
        assert(parts.drop_last() =~= spaced);
        assert(joined =~= head + wanted);
        lemma_split_last(head, wanted);
        assert(updated.drop_last() =~= joined);
        let pieces = split_char(updated, '\n');
        assert(pieces == split_char(joined, '\n').push(Seq::<char>::empty()));
        let got = text_lines(updated);
        assert(got == pieces.drop_last().map_values(|q: Seq<char>| strip_cr(q)));
        assert(pieces.drop_last() =~= split_char(joined, '\n'));
        let k = got.len() - 1;
        assert(got[k] == strip_cr(wanted));
        if wanted.len() > 0 {
            assert(wanted.last() != '\r') by {
                if wanted.last() == '\r' {
                    assert(wanted[wanted.len() - 1] == '\r');
                }
            }
        }
        assert(strip_cr(wanted) == wanted);
        assert(trim(got[k]) == trim(entry));
        assert(has_line(got, trim(entry)));
    }
}

/// The repository roots of a project whose `.gitignore` gets the defaults:
/// the configured roots, trimmed, blank ones left out, each once (in the
/// order first seen).
pub fn gitignore_roots(roots: &Vec<String>) -> (r: Vec<String>)
    ensures
        forall|i: int, j: int| 0 <= i < j < r@.len() ==> r@[i]@ != r@[j]@,
        forall|a: int| 0 <= a < r@.len() ==> (#[trigger] r@[a])@.len() > 0
            && exists|k: int| 0 <= k < roots@.len() && trim(roots@[k]@) == r@[a]@,
        forall|k: int| 0 <= k < roots@.len() && trim((#[trigger] roots@[k])@).len() > 0
            ==> exists|a: int| 0 <= a < r@.len() && r@[a]@ == trim(roots@[k]@),
{
    let mut out: Vec<String> = Vec::new();
    let mut i: usize = 0;
    while i < roots.len()
        invariant
            i <= roots@.len(),
            forall|a: int, b: int| 0 <= a < b < out@.len() ==> out@[a]@ != out@[b]@,
            forall|a: int| 0 <= a < out@.len() ==> (#[trigger] out@[a])@.len() > 0
                && exists|k: int| 0 <= k < i && trim(roots@[k]@) == out@[a]@,
            forall|k: int| 0 <= k < i && trim((#[trigger] roots@[k])@).len() > 0
                ==> exists|a: int| 0 <= a < out@.len() && out@[a]@ == trim(roots@[k]@),
        decreases roots.len() - i,
    {
        let root = trimmed_string(roots[i].as_str());
        let mut seen = false;
        let mut a: usize = 0;
        while a < out.len()
            invariant
                a <= out@.len(),
                seen <==> exists|b: int| 0 <= b < a && out@[b]@ == root@,
            decreases out.len() - a,
        {
            if out[a] == root {
                seen = true;
            }
            a = a + 1;
        }
        if !seen && root.as_str().unicode_len() > 0 {
            let ghost before = out@;
            out.push(root);
            proof {
                assert forall|x: int| 0 <= x < out@.len() implies (#[trigger] out@[x])@.len() > 0
                    && exists|k: int| 0 <= k < i + 1 && trim(roots@[k]@) == out@[x]@ by {
                    if x < before.len() {
                        assert(out@[x] == before[x]);
                    } else {
                        assert(trim(roots@[i as int]@) == out@[x]@);
                    }
                }
                assert forall|k: int| 0 <= k < i + 1 && trim((#[trigger] roots@[k])@).len() > 0
                    implies exists|b: int| 0 <= b < out@.len() && out@[b]@ == trim(roots@[k]@) by {
                    if k < i {
                        let b = choose|b: int| 0 <= b < before.len() && before[b]@ == trim(roots@[k]@);
                        assert(out@[b] == before[b]);
                    } else {
                        assert(out@[before.len() as int]@ == trim(roots@[k]@));
                    }
                }
            }
        } else {
            proof {
                assert forall|k: int| 0 <= k < i + 1 && trim((#[trigger] roots@[k])@).len() > 0
                    implies exists|b: int| 0 <= b < out@.len() && out@[b]@ == trim(roots@[k]@) by {
                    if k == i {
                        let b = choose|b: int| 0 <= b < out@.len() && out@[b]@ == root@;
                        assert(out@[b]@ == trim(roots@[k]@));
                    }
                }
            }
        }
        i = i + 1;
    }
    out
}

/// A sibling scope of a branched project gets a section in the core release
/// notes: it is not the core scope and is a module or a service.
pub open spec fn gets_sibling_section(index: int, core_index: int, kind: Option<BranchScopeKind>) -> bool {
    index != core_index && (kind == Some(BranchScopeKind::Module) || kind == Some(BranchScopeKind::Service))
}

pub fn sibling_gets_section(index: usize, core_index: usize, kind: Option<BranchScopeKind>) -> (r: bool)
    ensures
        r == gets_sibling_section(index as int, core_index as int, kind),
{
    index != core_index && match kind {
        Some(BranchScopeKind::Module) | Some(BranchScopeKind::Service) => true,
        _ => false,
    }
}

/// Appends a sibling's changelog section to the release notes under a
/// separator and a `## name — tag` heading, unless the section is blank.
/// Returns whether it was appended.
pub fn append_sibling_section(notes: &mut String, display_name: &str, composite_tag: &str, section: &str) -> (appended: bool)
    ensures
        appended == (trim(section@).len() > 0),
        appended ==> final(notes)@ == old(notes)@ + "\n\n---\n\n"@ + "## "@ + display_name@ + " \u{2014} "@
            + composite_tag@ + "\n\n"@ + trim(section@),
        !appended ==> final(notes)@ == old(notes)@,
{
    let body = trimmed_string(section);
    if body.as_str().unicode_len() == 0 {
        return false;
    }
    append_str(notes, "\n\n---\n\n");
    append_str(notes, "## ");
    append_str(notes, display_name);
    append_str(notes, " \u{2014} ");
    append_str(notes, composite_tag);
    append_str(notes, "\n\n");
    append_str(notes, body.as_str());
    true
}

/// A sibling scope of a branched project, with the changelog section built
/// for it (left empty for a sibling that gets none).
pub struct SiblingNotes {
    pub kind: Option<BranchScopeKind>,
    pub display_name: String,
    pub composite_tag: String,
    pub section: String,
}

/// The block a sibling's section adds to the release notes.
pub open spec fn sibling_block(display_name: Seq<char>, composite_tag: Seq<char>, section: Seq<char>) -> Seq<char> {
    if trim(section).len() > 0 {
        "\n\n---\n\n"@ + "## "@ + display_name + " \u{2014} "@ + composite_tag + "\n\n"@ + trim(section)
    } else {
        Seq::empty()
    }
}

/// The blocks of all siblings that get a section, in order.
pub open spec fn sibling_blocks(siblings: Seq<SiblingNotes>, core_index: int) -> Seq<char>
    decreases siblings.len(),
{
    if siblings.len() == 0 {
        Seq::empty()
    } else {
        let last = siblings.last();
        sibling_blocks(siblings.drop_last(), core_index) + if gets_sibling_section(siblings.len() - 1, core_index, last.kind) {
            sibling_block(last.display_name@, last.composite_tag@, last.section@)
        } else {
            Seq::empty()
        }
    }
}

/// Appends the sections of the siblings of the core scope (the modules and
/// services other than it, whose sections are not blank) to the release notes.
pub fn append_sibling_sections(notes: &mut String, siblings: &Vec<SiblingNotes>, core_index: usize)
    ensures
        final(notes)@ == old(notes)@ + sibling_blocks(siblings@, core_index as int),
{
    let ghost start = notes@;
    let mut i: usize = 0;
    while i < siblings.len()
        invariant
            i <= siblings@.len(),
            notes@ == start + sibling_blocks(siblings@.take(i as int), core_index as int),
        decreases siblings.len() - i,
    {
        let ghost before = notes@;
        let sibling = &siblings[i];
        if sibling_gets_section(i, core_index, sibling.kind) {
            append_sibling_section(notes, sibling.display_name.as_str(), sibling.composite_tag.as_str(), sibling.section.as_str());
        }
        proof {
            let t = siblings@.take(i + 1);
            assert(t.drop_last() =~= siblings@.take(i as int));
            assert(t.last() == siblings@[i as int]);
            assert(notes@ =~= start + sibling_blocks(t, core_index as int));
        }
        i = i + 1;
    }
    proof {
        assert(siblings@.take(siblings@.len() as int) =~= siblings@);
    }
}

/// The release's Top Picks edits, when they hold anything but whitespace.
pub fn top_picks_edits_if_any(edits: String) -> (r: Option<String>)
    ensures
        trim(edits@).len() == 0 ==> r is None,
        trim(edits@).len() > 0 ==> r == Some(edits),
{
    if trimmed_chars(edits.as_str()).len() == 0 { None } else { Some(edits) }
}

/// The changelog memory already records `tag_name` created from `branch_name`
/// (both compared trimmed).
pub fn memory_has_entry(entries: &Vec<(String, String)>, tag_name: &str, branch_name: &str) -> (r: bool)
    ensures
        r == exists|i: int| 0 <= i < entries@.len() && trim((#[trigger] entries@[i]).0@) == trim(tag_name@)
            && trim(entries@[i].1@) == trim(branch_name@),
{
    let tag = trimmed_chars(tag_name);
    let branch = trimmed_chars(branch_name);
    let mut i: usize = 0;
    while i < entries.len()
        invariant
            i <= entries@.len(),
            tag@ == trim(tag_name@),
            branch@ == trim(branch_name@),
            forall|j: int| 0 <= j < i ==> !(trim((#[trigger] entries@[j]).0@) == trim(tag_name@)
                && trim(entries@[j].1@) == trim(branch_name@)),
        decreases entries.len() - i,
    {
        let from = trimmed_chars(entries[i].0.as_str());
        let origin = trimmed_chars(entries[i].1.as_str());
        if vec_eq(&from, &tag) && vec_eq(&origin, &branch) {
            return true;
        }
        i = i + 1;
    }
    false
}

} // verus!
