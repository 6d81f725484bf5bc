//! Path and text normalisation for form inputs: pasted text, tag fragments,
//! repo-relative paths and repo roots derived from target files.

use vstd::prelude::*;
use crate::text::{
    chars_of, ends_with, is_ascii_alphanumeric, is_char, lower_seq, lower_vec,
    starts_with, string_of, sub_vec, trim, trim_by, trim_end_by, trim_end_vec, trim_start_by,
    trim_start_vec, trim_vec, trimmed_chars, vec_eq, vec_starts_with, char_is_ascii_alphanumeric,
    lemma_trim_by_ends, lemma_trim_unchanged, lemma_leading_count, lemma_trailing_count_bounds,
    ws, ascii_lower, trailing_count,
    Trimmer,
};

verus! {

/// A file name that every platform reads as one ordinary component: not
/// empty, without `/` or `\\`, and neither `.` nor `..`.
pub open spec fn plain_name(n: Seq<char>) -> bool {
    &&& n.len() > 0
    &&& !n.contains('/')
    &&& !n.contains('\\')
    &&& n != seq!['.']
    &&& n != seq!['.', '.']
}

/// A relative directory path that every platform splits at `/` alone: not
/// empty, without `\\`, not starting or ending with `/`, not a bare drive
/// such as `C:`, and with no component that is `.`.
pub open spec fn plain_dir(d: Seq<char>) -> bool {
    &&& d.len() > 0
    &&& !d.contains('\\')
    &&& d[0] != '/'
    &&& d.last() != '/'
    &&& !(d.len() == 2 && d[1] == ':')
    &&& forall|i: int| 0 <= i < d.len() && #[trigger] d[i] == '.' ==>
            !((i == 0 || d[i - 1] == '/') && (i + 1 == d.len() || d[i + 1] == '/'))
}

/// `s` is a plain directory, `/` at index `k`, then a plain file name.
pub open spec fn plain_split(s: Seq<char>, k: int) -> bool {
    &&& 0 <= k < s.len()
    &&& s[k] == '/'
    &&& plain_dir(s.take(k))
    &&& plain_name(s.skip(k + 1))
}

/// `s` is one plain file name with no drive letter in it.
pub open spec fn plain_single(s: Seq<char>) -> bool {
    plain_name(s) && !s.contains(':')
}

/// Calls `Path::parent` on `path` and renders the parent with `Path::display`.
/// The parent is a proper prefix of `path`, and an empty path has none. As the
/// documentation says, the parent is the path without its final component, and
/// `Some("")` for a relative path of one component: stated here where `/` is
/// the only separator in the path, so that every platform reads it alike.
/// Where `\\`, `.` components or roots come in, the parent is left unsaid.
#[verifier::external_body]
fn path_parent(path: &str) -> (r: Option<String>)
    ensures
        r matches Some(p) ==> p@.len() < path@.len() && path@.take(p@.len() as int) == p@,
        path@.len() == 0 ==> r is None,
        forall|k: int| #[trigger] plain_split(path@, k) ==> r is Some && r.unwrap()@ == path@.take(k),
        plain_single(path@) ==> r is Some && r.unwrap()@.len() == 0,
{
    std::path::Path::new(path).parent().map(|parent| parent.display().to_string())
}

/// `root` is a drive letter and a colon alone, such as `C:`.
pub open spec fn is_bare_drive(root: Seq<char>) -> bool {
    root.len() == 2 && root[1] == ':' && (('a' <= root[0] <= 'z') || ('A' <= root[0] <= 'Z'))
}

/// A join that every platform performs by concatenation: a root without
/// backslashes, and a relative path without backslashes that neither starts
/// with a separator nor names a drive.
pub open spec fn plain_join(root: Seq<char>, relative: Seq<char>) -> bool {
    &&& !root.contains('\\')
    &&& !relative.contains('\\')
    &&& (relative.len() == 0 || relative[0] != '/')
    &&& !(relative.len() >= 2 && relative[1] == ':')
}

/// `r` is `root`, then at most one separator (`/` or `\\`), then `relative`;
/// the separator is left out exactly where `root` is empty or already ends
/// in `/`, and may be left out after a bare drive.
pub open spec fn joined_with_separator(r: Seq<char>, root: Seq<char>, relative: Seq<char>) -> bool {
    let gap = r.len() - root.len() - relative.len();
    &&& r.len() >= root.len() + relative.len()
    &&& r.take(root.len() as int) == root
    &&& r.skip(r.len() - relative.len()) == relative
    &&& (gap == 0 || gap == 1)
    &&& (gap == 1 ==> (r[root.len() as int] == '/' || r[root.len() as int] == '\\'))
    &&& ((root.len() == 0 || root.last() == '/') ==> gap == 0)
    &&& ((root.len() > 0 && root.last() != '/' && !is_bare_drive(root)) ==> gap == 1)
}

/// Calls `Path::join` on `root` and `relative` and renders the result with
/// `Path::display`. As `PathBuf::push` documents, a relative path is appended
/// after a separator where the root lacks one (none after an empty root, and
/// none after a bare drive on Windows); stated where no backslash, leading
/// separator or drive can make a platform replace or normalise the root.
/// Other joins, such as those onto a verbatim `\\?\` root, are left unsaid.
#[verifier::external_body]
fn path_join(root: &str, relative: &str) -> (r: String)
    ensures
        plain_join(root@, relative@) ==> joined_with_separator(r@, root@, relative@),
{
    std::path::Path::new(root).join(relative).display().to_string()
}

/// The file name of `path` where every platform reads it alike: the whole
/// path for one plain component, the part after the `/` for a plain
/// directory and file name; `None` where the platform may decide.
pub open spec fn plain_file_name(path: Seq<char>) -> Option<Seq<char>> {
    if plain_single(path) {
        Some(path)
    } else if exists|k: int| plain_split(path, k) {
        let k = choose|k: int| plain_split(path, k);
        Some(path.skip(k + 1))
    } else {
        None
    }
}

/// The index of the last `.` in `s`, or -1.
pub open spec fn last_dot(s: Seq<char>) -> int
    decreases s.len(),
{
    if s.len() == 0 {
        -1
    } else if s.last() == '.' {
        s.len() - 1
    } else {
        last_dot(s.drop_last())
    }
}

/// The extension of the file name `name`: what follows its last `.`; none
/// where it has no `.`, or its only `.` leads.
pub open spec fn extension_of(name: Seq<char>) -> Option<Seq<char>> {
    let k = last_dot(name);
    if k <= 0 {
        None
    } else {
        Some(name.skip(k + 1))
    }
}

/// The characters of an optional string.
pub open spec fn string_opt_view(o: Option<String>) -> Option<Seq<char>> {
    match o {
        Some(s) => Some(s@),
        None => None,
    }
}

/// Calls `Path::file_name` on `path` and converts the name with `to_str`.
/// The final component is the file name, as the documentation says: stated
/// where only `/` separates plain components (`plain_file_name`); elsewhere
/// which characters separate components is the platform's affair, and the
/// result is left unsaid.
#[verifier::external_body]
pub(crate) fn path_file_name(path: &str) -> (r: Option<String>)
    ensures
        plain_file_name(path@) is Some ==> string_opt_view(r) == plain_file_name(path@),
{
    std::path::Path::new(path).file_name().and_then(|name| name.to_str()).map(|name| name.to_string())
}

/// Calls `Path::extension` on `path` and converts it with `to_str`. As the
/// documentation says, the extension is what follows the last `.` of the
/// file name, with none where the name has no `.` or begins with its only
/// one: stated where the file name is plain (`plain_file_name`), and left
/// unsaid elsewhere.
#[verifier::external_body]
pub(crate) fn path_extension(path: &str) -> (r: Option<String>)
    ensures
        plain_file_name(path@) matches Some(n) ==> string_opt_view(r) == extension_of(n),
{
    std::path::Path::new(path).extension().and_then(|extension| extension.to_str()).map(|extension| extension.to_string())
}

/// `s` without carriage returns and line feeds.
pub open spec fn strip_newlines(s: Seq<char>) -> Seq<char> {
    s.filter(|c: char| c != '\r' && c != '\n')
}

/// Pasted text as a single line: carriage returns and line feeds dropped.
pub fn sanitize_pasted_text(text: &str) -> (r: String)
    ensures
        r@ == strip_newlines(text@),
{
    let v = chars_of(text);
    let mut out: Vec<char> = Vec::new();
    let mut i: usize = 0;
    while i < v.len()
        invariant
            i <= v.len(),
            v@ == text@,
            out@ == strip_newlines(v@.take(i as int)),
        decreases v.len() - i,
    {
        proof {
            reveal_with_fuel(Seq::<_>::filter, 1);
            assert(v@.take(i + 1).drop_last() =~= v@.take(i as int));
        }
        if v[i] != '\r' && v[i] != '\n' {
            out.push(v[i]);
        }
        i = i + 1;
    }
    assert(v@.take(v.len() as int) =~= v@);
    string_of(&out)
}

pub open spec fn dash_non_alnum(c: char) -> char {
    if is_ascii_alphanumeric(c) { c } else { '-' }
}

/// A tag fragment: ASCII letters and digits kept, everything else turned into
/// `-`, and dashes at both ends removed.
pub open spec fn tag_fragment(s: Seq<char>) -> Seq<char> {
    trim_by(s.map_values(|c: char| dash_non_alnum(c)), is_char('-'))
}

pub fn sanitize_tag_fragment(text: &str) -> (r: String)
    ensures
        r@ == tag_fragment(text@),
{
    let v = chars_of(text);
    let mut mapped: Vec<char> = Vec::new();
    let mut i: usize = 0;
    while i < v.len()
        invariant
            i <= v.len(),
            v@ == text@,
            mapped@ == v@.take(i as int).map_values(|c: char| dash_non_alnum(c)),
        decreases v.len() - i,
    {
        let c = v[i];
        mapped.push(if char_is_ascii_alphanumeric(c) { c } else { '-' });
        i = i + 1;
        assert(mapped@ =~= v@.take(i as int).map_values(|c: char| dash_non_alnum(c)));
    }
    assert(v@.take(v.len() as int) =~= v@);
    let t = trim_vec(&mapped, Trimmer::Char('-'));
    string_of(&t)
}

pub open spec fn slash_for_backslash(c: char) -> char {
    if c == '\\' { '/' } else { c }
}

/// A path trimmed, with backslashes turned into slashes.
pub open spec fn normalized_path(s: Seq<char>) -> Seq<char> {
    trim(s).map_values(|c: char| slash_for_backslash(c))
}

pub fn normalized_path_chars(path: &str) -> (r: Vec<char>)
    ensures
        r@ == normalized_path(path@),
{
    let t = trimmed_chars(path);
    let mut out: Vec<char> = Vec::new();
    let mut i: usize = 0;
    while i < t.len()
        invariant
            i <= t.len(),
            out@ == t@.take(i as int).map_values(|c: char| slash_for_backslash(c)),
        decreases t.len() - i,
    {
        out.push(if t[i] == '\\' { '/' } else { t[i] });
        i = i + 1;
        assert(out@ =~= t@.take(i as int).map_values(|c: char| slash_for_backslash(c)));
    }
    assert(t@.take(t.len() as int) =~= t@);
    out
}

/// A path trimmed, with backslashes turned into slashes.
pub fn normalized_path_string(path: &str) -> (r: String)
    ensures
        r@ == normalized_path(path@),
{
    let v = normalized_path_chars(path);
    string_of(&v)
}

/// Absolute: rooted at `/`, a UNC `\\` share, or a drive letter followed by
/// `:` and a separator.
pub open spec fn is_absolute(s: Seq<char>) -> bool {
    ||| s.len() > 0 && s[0] == '/'
    ||| s.len() >= 2 && s[0] == '\\' && s[1] == '\\'
    ||| s.len() >= 3 && (s[0] as u32) < 128 && s[1] == ':' && (s[2] == '/' || s[2] == '\\')
}

fn is_absolute_chars(v: &Vec<char>) -> (r: bool)
    ensures
        r == is_absolute(v@),
{
    (v.len() > 0 && v[0] == '/') || (v.len() >= 2 && v[0] == '\\' && v[1] == '\\') || (v.len()
        >= 3 && (v[0] as u32) < 128 && v[1] == ':' && (v[2] == '/' || v[2] == '\\'))
}

/// Whether `path` is absolute on Unix or Windows.
pub fn is_absolute_path_string(path: &str) -> (r: bool)
    ensures
        r == is_absolute(path@),
{
    let v = chars_of(path);
    is_absolute_chars(&v)
}

/// The part of `path` that is joined onto a repo root: trimmed, without
/// leading slashes.
pub open spec fn joined_part(path: Seq<char>) -> Seq<char> {
    trim_start_by(trim(path), is_char('/'))
}

/// Resolves a repo-relative path against the repo root, for browsing and I/O.
/// Empty stays empty; absolute paths and paths without a root are normalised;
/// otherwise the (trimmed) root is joined with the path without leading slashes.
pub fn absolutize_path_for_repo_root(path: &str, repo_root: &str) -> (r: String)
    ensures
        trim(path@).len() == 0 ==> r@ == Seq::<char>::empty(),
        trim(path@).len() > 0 && (is_absolute(trim(path@)) || trim(repo_root@).len() == 0)
            ==> r@ == normalized_path(path@),
        trim(path@).len() > 0 && !is_absolute(trim(path@)) && trim(repo_root@).len() > 0
            && plain_join(trim(repo_root@), joined_part(path@))
            ==> joined_with_separator(r@, trim(repo_root@), joined_part(path@)),
{
    let trimmed = trimmed_chars(path);
    if trimmed.len() == 0 {
        return String::new();
    }
    if is_absolute_chars(&trimmed) {
        return normalized_path_string(path);
    }
    let root = trimmed_chars(repo_root);
    if root.len() == 0 {
        return normalized_path_string(path);
    }
    let relative = trim_start_vec(&trimmed, Trimmer::Char('/'));
    let root_s = string_of(&root);
    let relative_s = string_of(&relative);
    path_join(root_s.as_str(), relative_s.as_str())
}

/// What `normalize_path_for_repo_root` keeps of `path`.
pub open spec fn repo_relative(path: Seq<char>, repo_root: Seq<char>) -> Seq<char> {
    let value = normalized_path(path);
    let root = trim_end_by(normalized_path(repo_root), is_char('/'));
    if value.len() == 0 {
        value
    } else if !is_absolute(value) {
        trim_start_by(value, is_char('/'))
    } else if root.len() == 0 {
        value
    } else if lower_seq(value) == lower_seq(root) {
        Seq::empty()
    } else if starts_with(lower_seq(value), lower_seq(root).push('/')) {
        trim_start_by(value.skip(root.len() as int + 1), is_char('/'))
    } else {
        value
    }
}

/// Keeps paths inside the repo root relative to it (case-insensitively), for
/// storage and display; other paths are only normalised.
pub fn normalize_path_for_repo_root(path: &str, repo_root: &str) -> (r: String)
    ensures
        r@ == repo_relative(path@, repo_root@),
{
    let value = normalized_path_chars(path);
    if value.len() == 0 {
        return string_of(&value);
    }
    if !is_absolute_chars(&value) {
        let v = trim_start_vec(&value, Trimmer::Char('/'));
        return string_of(&v);
    }
    let root_n = normalized_path_chars(repo_root);
    let root = trim_end_vec(&root_n, Trimmer::Char('/'));
    if root.len() == 0 {
        return string_of(&value);
    }
    let value_lower = lower_vec(&value);
    let root_lower = lower_vec(&root);
    if vec_eq(&value_lower, &root_lower) {
        return String::new();
    }
    let mut prefix = root_lower.clone();
    prefix.push('/');
    assert(prefix@ == lower_seq(root@).push('/'));
    if vec_starts_with(&value_lower, &prefix) {
        let rest = sub_vec(&value, root.len() + 1, value.len());
        assert(rest@ =~= value@.skip(root@.len() as int + 1));
        let v = trim_start_vec(&rest, Trimmer::Char('/'));
        return string_of(&v);
    }
    string_of(&value)
}

/// Normalising leaves a trimmed path without backslashes as it is.
proof fn lemma_normalized_plain(s: Seq<char>)
    requires
        trim(s) == s,
        !s.contains('\\'),
    ensures
        normalized_path(s) == s,
{
    assert forall|i: int| 0 <= i < s.len() implies s[i] != '\\' by {
        if s[i] == '\\' {
            assert(s.contains('\\'));
        }
    }
    assert(normalized_path(s) =~= s);
}

/// A path resolved against a repo root and then normalised against the same
/// root gives back the repo-relative path: for a trimmed relative path and a
/// trimmed absolute root, neither with backslashes, where the path names no
/// drive and the root is more than slashes.
pub proof fn law_resolved_path_normalises_back(path: Seq<char>, root: Seq<char>)
    requires
        trim(path) == path,
        path.len() > 0,
        !path.contains('\\'),
        !is_absolute(path),
        !(path.len() >= 2 && path[1] == ':'),
        trim(root) == root,
        !root.contains('\\'),
        is_absolute(root),
        trim_end_by(root, is_char('/')).len() > 0,
    ensures
        joined_part(path) == path,
        plain_join(root, path),
        forall|resolved: Seq<char>| #[trigger] joined_with_separator(resolved, root, path)
            ==> repo_relative(resolved, root) == path,
{
    lemma_trim_by_ends(path, ws());
    lemma_trim_by_ends(root, ws());
    assert(path[0] != '/');
    lemma_leading_count(path, is_char('/'), 0);
    assert(path.skip(0) =~= path);
    assert forall|resolved: Seq<char>| #[trigger] joined_with_separator(resolved, root, path)
        implies repo_relative(resolved, root) == path by {
        lemma_resolved_normalises_back(path, root, resolved);
    }
}

proof fn lemma_resolved_normalises_back(path: Seq<char>, root: Seq<char>, resolved: Seq<char>)
    requires
        trim(path) == path,
        path.len() > 0,
        !path.contains('\\'),
        path[0] != '/',
        trim(root) == root,
        !root.contains('\\'),
        is_absolute(root),
        trim_end_by(root, is_char('/')).len() > 0,
        joined_with_separator(resolved, root, path),
    ensures
        repo_relative(resolved, root) == path,
{
    let n = root.len() as int;
    let gap = resolved.len() - root.len() - path.len();
    lemma_trim_by_ends(path, ws());
    lemma_trim_by_ends(root, ws());
    assert(resolved[0] == resolved.take(n)[0]);
    assert(resolved.last() == resolved.skip(resolved.len() - path.len()).last());
    lemma_trim_unchanged(resolved);
    assert(!root.contains('\\') ==> root[0] != '\\') by {
        if root[0] == '\\' {
            assert(root.contains('\\'));
        }
    }
    // the normalised resolved path: root, then `/` where there is a gap, then path
    let v = normalized_path(resolved);
    assert(v.len() == resolved.len());
    assert forall|i: int| 0 <= i < n implies v[i] == root[i] by {
        assert(resolved[i] == resolved.take(n)[i]);
        if root[i] == '\\' {
            assert(root.contains('\\'));
        }
    }
    assert forall|j: int| 0 <= j < path.len() implies v[n + gap + j] == path[j] by {
        assert(resolved[n + gap + j] == resolved.skip(resolved.len() - path.len())[j]);
        if path[j] == '\\' {
            assert(path.contains('\\'));
        }
    }
    if gap == 1 {
        assert(v[n] == '/');
    }
    assert(is_absolute(v));
    lemma_normalized_plain(root);
    let t = trailing_count(root, is_char('/'));
    lemma_trailing_count_bounds(root, is_char('/'));
    let rr = trim_end_by(root, is_char('/'));
    let k = rr.len() as int;
    assert(k == n - t);
    // after the kept part of the root, slashes up to the path
    assert forall|i: int| k <= i < n + gap implies v[i] == '/' by {
        if i < n {
            assert(is_char('/')(root[i]));
        }
    }
    if t == 0 {
        assert(root.last() != '/');
        assert(gap == 1);
    }
    assert(k + 1 <= n + gap);
    // case-folded comparison with the kept root
    let lv = lower_seq(v);
    let lr = lower_seq(rr);
    assert(lv.len() != lr.len());
    assert(lv.take(k + 1) =~= lr.push('/')) by {
        assert forall|i: int| 0 <= i < k + 1 implies lv.take(k + 1)[i] == lr.push('/')[i] by {
            if i < k {
                assert(rr[i] == root[i]);
            }
        }
    }
    assert(starts_with(lv, lr.push('/')));
    let rest = v.skip(k + 1);
    let lead = n + gap - (k + 1);
    assert forall|i: int| 0 <= i < lead implies is_char('/')(#[trigger] rest[i]) by {
        assert(rest[i] == v[k + 1 + i]);
    }
    assert(rest[lead] == v[n + gap]);
    lemma_leading_count(rest, is_char('/'), lead);
    assert(rest.skip(lead) =~= path) by {
        assert forall|j: int| 0 <= j < path.len() implies rest.skip(lead)[j] == path[j] by {
            assert(rest.skip(lead)[j] == v[n + gap + j]);
        }
    }
}

/// The repo root that a target file suggests: its parent directory, if that
/// is not empty.
pub fn repo_root_from_parent(parent: Option<String>) -> (r: Option<String>)
    ensures
        r == (match parent {
            Some(p) => if p@.len() > 0 { Some(p) } else { None },
            None => None,
        }),
{
    match parent {
        Some(p) => if !p.as_str().is_empty() { Some(p) } else { None },
        None => None,
    }
}

/// The directory of a target file, as a suggested repo root: `None` for a
/// blank path or a path without a (non-empty) parent.
pub fn derive_repo_root_from_target_path(path: &str) -> (r: Option<String>)
    ensures
        trim(path@).len() == 0 ==> r is None,
        r matches Some(p) ==> 0 < p@.len() < trim(path@).len() && trim(path@).take(p@.len() as int) == p@,
        forall|k: int| #[trigger] plain_split(trim(path@), k) ==>
            (r matches Some(p) && p@ == trim(path@).take(k)),
        plain_single(trim(path@)) ==> r is None,
{
    let trimmed = trimmed_chars(path);
    if trimmed.len() == 0 {
        return None;
    }
    let t = string_of(&trimmed);
    repo_root_from_parent(path_parent(t.as_str()))
}

} // verus!
