//! Decisions around standard (per-tag) changelog generation: which tag a
//! postponed changelog is replayed against, which branches count as mainline,
//! and whether a freshly created tag gets its changelog now, later or never.

use vstd::prelude::*;
use crate::text::{
    is_char, lemma_seq_lt_asymmetric, lemma_seq_lt_irreflexive, lemma_seq_lt_total,
    lemma_seq_lt_transitive, seq_lt, string_of, trim, trim_start_by, trim_start_vec, trim_vec,
    trimmed_chars, vec_eq, vec_eq_str, vec_lt, Trimmer,
};

verus! {

/// The character views of a sequence of strings.
pub open spec fn string_views(v: Seq<String>) -> Seq<Seq<char>> {
    v.map_values(|s: String| s@)
}

pub open spec fn opt_view(o: Option<&str>) -> Option<Seq<char>> {
    match o {
        Some(s) => Some(s@),
        None => None,
    }
}

/// The branch name as `git branch --contains` lists it, without the
/// surrounding whitespace and without the `*` that marks the checked-out branch.
pub open spec fn branch_label(s: Seq<char>) -> Seq<char> {
    trim(trim_start_by(trim(s), is_char('*')))
}

/// A branch is mainline when its label equals the configured main branch, or,
/// where no (non-blank) main branch is configured, when it is `main` or `master`.
pub open spec fn is_mainline_spec(branch: Seq<char>, custom: Option<Seq<char>>) -> bool {
    let b = branch_label(branch);
    match custom {
        Some(c) => if trim(c).len() > 0 {
            b == trim(c)
        } else {
            b == "main"@ || b == "master"@
        },
        None => b == "main"@ || b == "master"@,
    }
}

/// `x` is the (non-empty) label of one of `branches`.
pub open spec fn is_label_of(branches: Seq<Seq<char>>, x: Seq<char>) -> bool {
    x.len() > 0 && exists|i: int| 0 <= i < branches.len() && branch_label(branches[i]) == x
}

pub open spec fn strictly_sorted(s: Seq<Seq<char>>) -> bool {
    forall|i: int, j: int| 0 <= i < j < s.len() ==> seq_lt(s[i], s[j])
}

pub open spec fn has_mainline(branches: Seq<Seq<char>>, custom: Option<Seq<char>>) -> bool {
    exists|i: int| 0 <= i < branches.len() && is_mainline_spec(branches[i], custom)
}

/// The character views of a sequence of character vectors.
pub open spec fn vec_views(v: Seq<Vec<char>>) -> Seq<Seq<char>> {
    v.map_values(|c: Vec<char>| c@)
}

/// Two strictly sorted sequences with the same elements are equal.
pub proof fn lemma_sorted_unique(a: Seq<Seq<char>>, b: Seq<Seq<char>>)
    requires
        strictly_sorted(a),
        strictly_sorted(b),
        forall|x: Seq<char>| a.contains(x) <==> b.contains(x),
    ensures
        a == b,
    decreases a.len(),
{
    if a.len() == 0 {
        if b.len() > 0 {
            assert(b.contains(b[0]));
        }
        assert(a =~= b);
    } else {
        assert(a.contains(a[0]));
        let j = choose|j: int| 0 <= j < b.len() && b[j] == a[0];
        assert(b.contains(b[0]));
        let i = choose|i: int| 0 <= i < a.len() && a[i] == b[0];
        if a[0] != b[0] {
            assert(j > 0 && i > 0);
            assert(seq_lt(b[0], b[j]));
            assert(seq_lt(a[0], a[i]));
            lemma_seq_lt_asymmetric(a[0], b[0]);
            assert(false);
        }
        let a1 = a.drop_first();
        let b1 = b.drop_first();
        assert forall|x: Seq<char>| a1.contains(x) <==> b1.contains(x) by {
            if a1.contains(x) {
                let k = choose|k: int| 0 <= k < a1.len() && a1[k] == x;
                assert(a[k + 1] == x);
                assert(seq_lt(a[0], x));
                lemma_seq_lt_irreflexive(x);
                assert(b.contains(x));
                let m = choose|m: int| 0 <= m < b.len() && b[m] == x;
                assert(m != 0);
                assert(b1[m - 1] == x);
            }
            if b1.contains(x) {
                let k = choose|k: int| 0 <= k < b1.len() && b1[k] == x;
                assert(b[k + 1] == x);
                assert(seq_lt(b[0], x));
                lemma_seq_lt_irreflexive(x);
                assert(a.contains(x));
                let m = choose|m: int| 0 <= m < a.len() && a[m] == x;
                assert(m != 0);
                assert(a1[m - 1] == x);
            }
        }
        lemma_sorted_unique(a1, b1);
        assert(a =~= b) by {
            assert forall|k: int| 0 <= k < a.len() implies a[k] == b[k] by {
                if k > 0 {
                    assert(a[k] == a1[k - 1]);
                    assert(b[k] == b1[k - 1]);
                }
            }
        }
    }
}

/// The label of a branch line, as `branch_label` describes it.
pub fn branch_label_chars(branch: &str) -> (r: Vec<char>)
    ensures
        r@ == branch_label(branch@),
{
    let a = trimmed_chars(branch);
    let b = trim_start_vec(&a, Trimmer::Char('*'));
    trim_vec(&b, Trimmer::Whitespace)
}

fn is_mainline_label(label: &Vec<char>, custom: Option<&str>) -> (r: bool)
    ensures
        ({
            let b = label@;
            r == match opt_view(custom) {
                Some(c) => if trim(c).len() > 0 {
                    b == trim(c)
                } else {
                    b == "main"@ || b == "master"@
                },
                None => b == "main"@ || b == "master"@,
            }
        }),
{
    if let Some(c) = custom {
        let ct = trimmed_chars(c);
        if ct.len() > 0 {
            return vec_eq(label, &ct);
        }
    }
    vec_eq_str(label, "main") || vec_eq_str(label, "master")
}

/// Whether `branch` is the repository's mainline branch.
pub fn is_mainline_branch(branch: &str, custom_main_branch: Option<&str>) -> (r: bool)
    ensures
        r == is_mainline_spec(branch@, opt_view(custom_main_branch)),
{
    let label = branch_label_chars(branch);
    is_mainline_label(&label, custom_main_branch)
}

/// Whether any of `branches` is mainline.
pub fn any_mainline(branches: &[String], custom: Option<&str>) -> (r: bool)
    ensures
        r == has_mainline(string_views(branches@), opt_view(custom)),
{
    let mut i: usize = 0;
    while i < branches.len()
        invariant
            i <= branches@.len(),
            forall|j: int|
                0 <= j < i ==> !is_mainline_spec(
                    #[trigger] string_views(branches@)[j],
                    opt_view(custom),
                ),
        decreases branches@.len() - i,
    {
        if is_mainline_branch(branches[i].as_str(), custom) {
            assert(string_views(branches@)[i as int] == branches@[i as int]@);
            return true;
        }
        i = i + 1;
    }
    false
}

/// Inserts `x` into the strictly sorted `out` unless it is already there.
fn insert_sorted(out: &mut Vec<Vec<char>>, x: Vec<char>)
    requires
        strictly_sorted(vec_views(old(out)@)),
    ensures
        strictly_sorted(vec_views(final(out)@)),
        forall|y: Seq<char>|
            vec_views(final(out)@).contains(y) <==> (vec_views(old(out)@).contains(y) || y == x@),
{
    let ghost before = vec_views(out@);
    let mut k: usize = 0;
    while k < out.len() && vec_lt(&out[k], &x)
        invariant
            k <= out.len(),
            vec_views(out@) == before,
            forall|j: int| 0 <= j < k ==> seq_lt(#[trigger] before[j], x@),
        decreases out.len() - k,
    {
        k = k + 1;
    }
    if k < out.len() && vec_eq(&out[k], &x) {
        assert(before[k as int] == x@);
        assert forall|y: Seq<char>| before.contains(y) <==> (before.contains(y) || y == x@) by {
            if y == x@ {
                assert(before[k as int] == y);
            }
        }
        return;
    }
    if k < out.len() {
        assert(before[k as int] == out@[k as int]@);
        proof {
            lemma_seq_lt_total(before[k as int], x@);
        }
    }
    let ghost xv = x@;
    out.insert(k, x);
    let ghost after = vec_views(out@);
    assert(after =~= before.insert(k as int, xv));
    assert forall|i: int, j: int| 0 <= i < j < after.len() implies seq_lt(after[i], after[j]) by {
        if j < k {
        } else if j == k {
        } else if i < k {
            assert(after[j] == before[j - 1]);
            if i < k {
                assert(seq_lt(before[i], xv));
                if j - 1 == k {
                } else {
                    assert(seq_lt(before[k as int], before[j - 1]));
                    lemma_seq_lt_transitive(xv, before[k as int], before[j - 1]);
                }
                lemma_seq_lt_transitive(before[i], xv, before[j - 1]);
            }
        } else if i == k {
            assert(after[j] == before[j - 1]);
            if j - 1 > k {
                assert(seq_lt(before[k as int], before[j - 1]));
                lemma_seq_lt_transitive(xv, before[k as int], before[j - 1]);
            }
        } else {
            assert(after[i] == before[i - 1]);
            assert(after[j] == before[j - 1]);
        }
    }
    assert forall|y: Seq<char>| after.contains(y) <==> (before.contains(y) || y == xv) by {
        if after.contains(y) {
            let m = choose|m: int| 0 <= m < after.len() && after[m] == y;
            if m < k {
                assert(before[m] == y);
            } else if m > k {
                assert(before[m - 1] == y);
            }
        }
        if before.contains(y) {
            let m = choose|m: int| 0 <= m < before.len() && before[m] == y;
            if m < k {
                assert(after[m] == y);
            } else {
                assert(after[m + 1] == y);
            }
        }
        if y == xv {
            assert(after[k as int] == y);
        }
    }
}

/// The distinct non-empty branch labels of `branches`, sorted ascending.
pub fn normalized_branch_names(branches: &[String]) -> (r: Vec<String>)
    ensures
        strictly_sorted(string_views(r@)),
        forall|x: Seq<char>|
            string_views(r@).contains(x) <==> is_label_of(string_views(branches@), x),
{
    let ghost bs = string_views(branches@);
    let mut out: Vec<Vec<char>> = Vec::new();
    let mut i: usize = 0;
    while i < branches.len()
        invariant
            i <= branches@.len(),
            bs == string_views(branches@),
            strictly_sorted(vec_views(out@)),
            forall|x: Seq<char>|
                vec_views(out@).contains(x) <==> is_label_of(
                    bs.take(i as int),
                    x,
                ),
        decreases branches@.len() - i,
    {
        let label = branch_label_chars(branches[i].as_str());
        let ghost lv = label@;
        let ghost prev = vec_views(out@);
        assert(bs[i as int] == branches@[i as int]@);
        if label.len() > 0 {
            insert_sorted(&mut out, label);
        }
        proof {
            let cur = vec_views(out@);
            assert forall|x: Seq<char>| cur.contains(x) <==> is_label_of(bs.take(i + 1), x) by {
                if is_label_of(bs.take(i + 1), x) {
                    let t1 = bs.take(i + 1);
                    let j = choose|j: int| 0 <= j < t1.len() && branch_label(#[trigger] t1[j]) == x;
                    if j < i {
                        assert(bs.take(i as int)[j] == bs.take(i + 1)[j]);
                        assert(is_label_of(bs.take(i as int), x));
                    }
                }
                if is_label_of(bs.take(i as int), x) {
                    let t0 = bs.take(i as int);
                    let j = choose|j: int| 0 <= j < t0.len() && branch_label(#[trigger] t0[j]) == x;
                    assert(bs.take(i + 1)[j] == bs.take(i as int)[j]);
                }
                if x == lv && lv.len() > 0 {
                    assert(bs.take(i + 1)[i as int] == bs[i as int]);
                }
            }
        }
        i = i + 1;
    }
    assert(bs.take(branches@.len() as int) =~= bs);
    let mut r: Vec<String> = Vec::new();
    let mut k: usize = 0;
    while k < out.len()
        invariant
            k <= out.len(),
            r@.len() == k,
            forall|m: int| 0 <= m < k ==> (#[trigger] r@[m])@ == out@[m]@,
        decreases out.len() - k,
    {
        let s = string_of(&out[k]);
        r.push(s);
        k = k + 1;
    }
    assert(string_views(r@) =~= vec_views(out@));
    r
}


/// How a tag job treats the standard changelog: decide automatically, or
/// force generating or postponing it.
#[derive(Debug, Clone, Copy, PartialEq, Eq, Structural)]
pub enum StdChangelogExecutionPolicy {
    Auto,
    ForceGenerate,
    ForcePostpone,
}

/// A tag request waiting on the user's answer about its standard changelog.
#[derive(Clone)]
pub struct PendingTagRequest<D> {
    pub dialog: D,
    pub changelog_enabled: bool,
    pub std_changelog_policy: StdChangelogExecutionPolicy,
}

/// What happens to the standard changelog of a freshly created tag.
#[derive(Debug, Clone, PartialEq, Eq)]
pub enum StdChangelogDecision {
    Generate,
    IgnoreNotOnMain,
    PostponeOnSubBranch(String),
    SkipNoPreviousTag,
}

/// Both tags are contained in exactly one branch, and it is the same branch `x`.
pub open spec fn share_single_label(prev: Seq<Seq<char>>, new: Seq<Seq<char>>, x: Seq<char>) -> bool {
    forall|y: Seq<char>|
        (#[trigger] is_label_of(prev, y) <==> y == x) && (is_label_of(new, y) <==> y == x)
}

/// The decision is `Generate`.
pub open spec fn generate_cond(
    current: Seq<char>,
    prev: Seq<Seq<char>>,
    new: Seq<Seq<char>>,
    custom: Option<Seq<char>>,
) -> bool {
    is_mainline_spec(current, custom) || (has_mainline(prev, custom) && has_mainline(new, custom))
}

/// The decision is to postpone on the sub-branch `x`.
pub open spec fn postpone_cond(
    current: Seq<char>,
    prev: Seq<Seq<char>>,
    new: Seq<Seq<char>>,
    custom: Option<Seq<char>>,
    x: Seq<char>,
) -> bool {
    &&& !is_mainline_spec(current, custom)
    &&& !has_mainline(prev, custom)
    &&& share_single_label(prev, new, x)
    &&& !is_mainline_spec(x, custom)
}

fn string_vecs_equal(a: &Vec<String>, b: &Vec<String>) -> (r: bool)
    ensures
        r == (string_views(a@) == string_views(b@)),
{
    if a.len() != b.len() {
        assert(string_views(a@).len() != string_views(b@).len());
        return false;
    }
    let mut i: usize = 0;
    while i < a.len()
        invariant
            a.len() == b.len(),
            i <= a.len(),
            forall|j: int| 0 <= j < i ==> (#[trigger] a@[j])@ == b@[j]@,
        decreases a.len() - i,
    {
        if a[i] != b[i] {
            assert(string_views(a@)[i as int] != string_views(b@)[i as int]);
            return false;
        }
        i = i + 1;
    }
    assert(string_views(a@) =~= string_views(b@));
    true
}

proof fn lemma_single_label_sorted(names: Seq<Seq<char>>, bs: Seq<Seq<char>>, x: Seq<char>)
    requires
        strictly_sorted(names),
        forall|y: Seq<char>| names.contains(y) <==> is_label_of(bs, y),
        forall|y: Seq<char>| #[trigger] is_label_of(bs, y) <==> y == x,
    ensures
        names == seq![x],
{
    let single = seq![x];
    assert forall|y: Seq<char>| names.contains(y) <==> single.contains(y) by {
        assert(single[0] == x);
        if single.contains(y) {
            let m = choose|m: int| 0 <= m < single.len() && single[m] == y;
            assert(m == 0);
        }
        if y == x {
            assert(single.contains(y));
        }
        assert(is_label_of(bs, y) <==> y == x);
    }
    lemma_sorted_unique(names, single);
}

/// `r` is a decision `decide_std_changelog_generation` may give for a tag
/// made on `cur` whose previous tag sits on branches `prev` and which sits on
/// `new`, with custom main branch `c`.
pub open spec fn decision_fits(r: StdChangelogDecision, cur: Seq<char>, prev: Seq<Seq<char>>, new: Seq<Seq<char>>, c: Option<Seq<char>>) -> bool {
    match r {
        StdChangelogDecision::Generate => generate_cond(cur, prev, new, c),
        StdChangelogDecision::PostponeOnSubBranch(b) => !generate_cond(cur, prev, new, c)
            && postpone_cond(cur, prev, new, c, b@),
        StdChangelogDecision::IgnoreNotOnMain => !generate_cond(cur, prev, new, c) && (
        forall|x: Seq<char>| !postpone_cond(cur, prev, new, c, x)),
        StdChangelogDecision::SkipNoPreviousTag => false,
    }
}

/// Decides whether the standard changelog of a new tag is generated now,
/// postponed until its sub-branch reaches mainline, or skipped.
pub fn decide_std_changelog_generation(
    previous_tag: &str,
    current_branch: &str,
    previous_branches: &[String],
    new_branches: &[String],
    custom_main_branch: Option<&str>,
) -> (r: StdChangelogDecision)
    ensures
        decision_fits(r, current_branch@, string_views(previous_branches@), string_views(new_branches@),
            opt_view(custom_main_branch)),
{
    let ghost prev = string_views(previous_branches@);
    let ghost new = string_views(new_branches@);
    let ghost c = opt_view(custom_main_branch);
    if is_mainline_branch(current_branch, custom_main_branch) {
        return StdChangelogDecision::Generate;
    }
    let previous_has_main = any_mainline(previous_branches, custom_main_branch);
    let new_has_main = any_mainline(new_branches, custom_main_branch);
    if previous_has_main && new_has_main {
        return StdChangelogDecision::Generate;
    }
    if previous_has_main && !new_has_main {
        return StdChangelogDecision::IgnoreNotOnMain;
    }
    let previous_normalized = normalized_branch_names(previous_branches);
    let new_normalized = normalized_branch_names(new_branches);
    let ghost pn = string_views(previous_normalized@);
    let ghost nn = string_views(new_normalized@);
    proof {
        assert forall|x: Seq<char>| #[trigger]
            postpone_cond(current_branch@, prev, new, c, x) implies pn == seq![x] && nn == seq![x] by {
            lemma_single_label_sorted(pn, prev, x);
            assert forall|y: Seq<char>| #[trigger] is_label_of(new, y) <==> y == x by {
                assert(is_label_of(prev, y) <==> y == x);
            }
            lemma_single_label_sorted(nn, new, x);
        }
    }
    if string_vecs_equal(&previous_normalized, &new_normalized) && new_normalized.len() == 1 {
        let branch = new_normalized[0].clone();
        assert(nn[0] == branch@);
        if !is_mainline_branch(branch.as_str(), custom_main_branch) {
            proof {
                assert forall|y: Seq<char>|
                    (#[trigger] is_label_of(prev, y) <==> y == branch@) && (is_label_of(new, y)
                        <==> y == branch@) by {
                    assert(nn.contains(y) <==> y == branch@) by {
                        if nn.contains(y) {
                            let m = choose|m: int| 0 <= m < nn.len() && nn[m] == y;
                            assert(m == 0);
                        }
                        if y == branch@ {
                            assert(nn[0] == y);
                        }
                    }
                    assert(pn.contains(y) <==> nn.contains(y));
                }
            }
            let _ = previous_tag;
            return StdChangelogDecision::PostponeOnSubBranch(branch);
        }
        proof {
            assert forall|x: Seq<char>| !postpone_cond(current_branch@, prev, new, c, x) by {
                if postpone_cond(current_branch@, prev, new, c, x) {
                    assert(nn == seq![x]);
                    assert(nn[0] == x);
                }
            }
        }
    } else {
        proof {
            assert forall|x: Seq<char>| !postpone_cond(current_branch@, prev, new, c, x) by {
                if postpone_cond(current_branch@, prev, new, c, x) {
                    assert(pn == nn);
                    assert(nn.len() == 1);
                    assert(new_normalized@.len() == 1);
                }
            }
        }
    }
    StdChangelogDecision::IgnoreNotOnMain
}

/// The index of the first tag that, trimmed, equals the trimmed `tag`.
pub open spec fn first_trimmed_match(tags: Seq<Seq<char>>, tag: Seq<char>) -> Option<int> {
    if exists|i: int|
        0 <= i < tags.len() && trim(tags[i]) == trim(tag) && forall|j: int|
            0 <= j < i ==> trim(#[trigger] tags[j]) != trim(tag) {
        Some(
            choose|i: int|
                0 <= i < tags.len() && trim(tags[i]) == trim(tag) && forall|j: int|
                    0 <= j < i ==> trim(#[trigger] tags[j]) != trim(tag),
        )
    } else {
        None
    }
}

/// In the newest-first `sorted_tags`, the tag right after `tag_name`: the one
/// a changelog for `tag_name` starts from. `None` when `tag_name` is absent or last.
pub fn previous_tag_for_replay(sorted_tags: &[String], tag_name: &str) -> (r: Option<String>)
    ensures
        ({
            let tags = string_views(sorted_tags@);
            match first_trimmed_match(tags, tag_name@) {
                Some(i) => if i + 1 < tags.len() {
                    r is Some && r->0@ == tags[i + 1]
                } else {
                    r is None
                },
                None => r is None,
            }
        }),
{
    let ghost tags = string_views(sorted_tags@);
    let target = trimmed_chars(tag_name);
    let mut i: usize = 0;
    while i < sorted_tags.len()
        invariant
            i <= sorted_tags@.len(),
            tags == string_views(sorted_tags@),
            target@ == trim(tag_name@),
            forall|j: int| 0 <= j < i ==> trim(#[trigger] tags[j]) != trim(tag_name@),
        decreases sorted_tags@.len() - i,
    {
        let candidate = trimmed_chars(sorted_tags[i].as_str());
        assert(tags[i as int] == sorted_tags@[i as int]@);
        if vec_eq(&candidate, &target) {
            let ghost k = first_trimmed_match(tags, tag_name@);
            proof {
                assert(k is Some);
                let kk = k->0;
                if kk < i {
                } else if kk > i {
                    assert(trim(tags[i as int]) != trim(tag_name@));
                }
                assert(kk == i);
            }
            if i + 1 < sorted_tags.len() {
                assert(tags[i + 1] == sorted_tags@[i + 1]@);
                return Some(sorted_tags[i + 1].clone());
            }
            return None;
        }
        i = i + 1;
    }
    None
}

/// `notes` joined with single spaces.
pub open spec fn join_spaced(notes: Seq<Seq<char>>) -> Seq<char>
    decreases notes.len(),
{
    if notes.len() == 0 {
        Seq::empty()
    } else if notes.len() == 1 {
        notes[0]
    } else {
        join_spaced(notes.drop_last()) + " "@ + notes.last()
    }
}

/// The tag summary, followed by the notes (space separated) when there are any.
pub fn append_background_tag_summary_notes(summary: String, notes: &[String]) -> (r: String)
    ensures
        r@ == (if notes@.len() == 0 {
            summary@
        } else {
            summary@ + " "@ + join_spaced(string_views(notes@))
        }),
{
    if notes.len() == 0 {
        return summary;
    }
    let mut joined = String::new();
    let ghost ns = string_views(notes@);
    let mut i: usize = 0;
    while i < notes.len()
        invariant
            i <= notes@.len(),
            ns == string_views(notes@),
            joined@ == join_spaced(ns.take(i as int)),
        decreases notes@.len() - i,
    {
        assert(ns.take(i + 1).drop_last() =~= ns.take(i as int));
        assert(ns.take(i + 1).last() == notes@[i as int]@);
        if i > 0 {
            joined.append(" ");
        }
        joined.append(notes[i].as_str());
        i = i + 1;
        proof {
            if i == 1 {
                assert(join_spaced(ns.take(0)) == Seq::<char>::empty());
                assert(joined@ =~= ns.take(1)[0]);
            }
        }
    }
    assert(ns.take(notes@.len() as int) =~= ns);
    let mut r = summary;
    r.append(" ");
    r.append(joined.as_str());
    r
}

/// A tag made on mainline, or whose previous tag and itself both sit on
/// mainline, gets its changelog now; a tag whose previous tag is on
/// mainline but which is not waits for nothing and is ignored; a changelog
/// is postponed only onto the one non-mainline branch both tags share; and
/// the decision never says that a previous tag is missing.
pub proof fn law_std_changelog_decisions(r: StdChangelogDecision, cur: Seq<char>, prev: Seq<Seq<char>>,
    new: Seq<Seq<char>>, c: Option<Seq<char>>)
    requires
        decision_fits(r, cur, prev, new, c),
    ensures
        is_mainline_spec(cur, c) ==> r == StdChangelogDecision::Generate,
        has_mainline(prev, c) && has_mainline(new, c) ==> r == StdChangelogDecision::Generate,
        !is_mainline_spec(cur, c) && has_mainline(prev, c) && !has_mainline(new, c)
            ==> r == StdChangelogDecision::IgnoreNotOnMain,
        r matches StdChangelogDecision::PostponeOnSubBranch(b) ==> {
            &&& !is_mainline_spec(cur, c) && !is_mainline_spec(b@, c)
            &&& is_label_of(prev, b@) && is_label_of(new, b@)
            &&& forall|y: Seq<char>| #[trigger] is_label_of(prev, y) || is_label_of(new, y) ==> y == b@
        },
        r != StdChangelogDecision::SkipNoPreviousTag,
{
    if let StdChangelogDecision::PostponeOnSubBranch(b) = r {
        assert(is_label_of(prev, b@) <==> b@ == b@);
        assert forall|y: Seq<char>| #[trigger] is_label_of(prev, y) || is_label_of(new, y) implies y == b@ by {
            assert(is_label_of(prev, y) <==> y == b@);
        }
    }
}

} // verus!
