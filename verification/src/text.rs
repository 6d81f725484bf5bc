//! Text helpers over the `Seq<char>` views of `&str` and `String`.

use vstd::prelude::*;

verus! {

/// Whether `c` has the Unicode `White_Space` property, the set that
/// `char::is_whitespace` and `str::trim` go by: the ASCII controls from tab
/// to carriage return, space, next line, no-break space, ogham space mark,
/// the spaces from en quad to hair space, the line and paragraph separators,
/// narrow no-break space, medium mathematical space and ideographic space.
pub open spec fn unicode_whitespace(c: char) -> bool {
    ||| '\u{9}' <= c <= '\u{d}'
    ||| c == ' '
    ||| c == '\u{85}'
    ||| c == '\u{a0}'
    ||| c == '\u{1680}'
    ||| '\u{2000}' <= c <= '\u{200a}'
    ||| c == '\u{2028}'
    ||| c == '\u{2029}'
    ||| c == '\u{202f}'
    ||| c == '\u{205f}'
    ||| c == '\u{3000}'
}

/// Whether `c` is Unicode whitespace.
pub fn is_whitespace(c: char) -> (r: bool)
    ensures
        r == unicode_whitespace(c),
{
    ('\u{9}' <= c && c <= '\u{d}') || c == ' ' || c == '\u{85}' || c == '\u{a0}'
        || c == '\u{1680}' || ('\u{2000}' <= c && c <= '\u{200a}') || c == '\u{2028}'
        || c == '\u{2029}' || c == '\u{202f}' || c == '\u{205f}' || c == '\u{3000}'
}

/// Calls `String::push`, which appends one character to the string.
#[verifier::external_body]
pub(crate) fn push_char(s: &mut String, c: char)
    ensures
        final(s)@ == old(s)@.push(c),
{
    s.push(c)
}

// ---------------------------------------------------------------------------
// Specifications
// ---------------------------------------------------------------------------

/// Number of leading characters of `s` that satisfy `p`.
pub open spec fn leading_count(s: Seq<char>, p: spec_fn(char) -> bool) -> nat
    decreases s.len(),
{
    if s.len() > 0 && p(s[0]) {
        1 + leading_count(s.drop_first(), p)
    } else {
        0
    }
}

/// Number of trailing characters of `s` that satisfy `p`.
pub open spec fn trailing_count(s: Seq<char>, p: spec_fn(char) -> bool) -> nat
    decreases s.len(),
{
    if s.len() > 0 && p(s.last()) {
        1 + trailing_count(s.drop_last(), p)
    } else {
        0
    }
}

/// `s` without its leading characters that satisfy `p`.
pub open spec fn trim_start_by(s: Seq<char>, p: spec_fn(char) -> bool) -> Seq<char> {
    if leading_count(s, p) == 0 {
        s
    } else {
        s.skip(leading_count(s, p) as int)
    }
}

/// `s` without its trailing characters that satisfy `p`.
pub open spec fn trim_end_by(s: Seq<char>, p: spec_fn(char) -> bool) -> Seq<char> {
    if trailing_count(s, p) == 0 {
        s
    } else {
        s.take(s.len() - trailing_count(s, p))
    }
}

/// `s` without leading and trailing characters that satisfy `p`.
pub open spec fn trim_by(s: Seq<char>, p: spec_fn(char) -> bool) -> Seq<char> {
    trim_end_by(trim_start_by(s, p), p)
}

pub open spec fn ws() -> spec_fn(char) -> bool {
    |c: char| unicode_whitespace(c)
}

pub open spec fn is_char(x: char) -> spec_fn(char) -> bool {
    |c: char| c == x
}

/// What `str::trim` gives: leading and trailing whitespace removed.
pub open spec fn trim(s: Seq<char>) -> Seq<char> {
    trim_by(s, ws())
}

pub open spec fn is_ascii_digit(c: char) -> bool {
    '0' <= c <= '9'
}

pub open spec fn is_ascii_alphanumeric(c: char) -> bool {
    ('0' <= c <= '9') || ('a' <= c <= 'z') || ('A' <= c <= 'Z')
}

pub open spec fn is_ascii_hexdigit(c: char) -> bool {
    ('0' <= c <= '9') || ('a' <= c <= 'f') || ('A' <= c <= 'F')
}

pub open spec fn ascii_lower(c: char) -> char {
    if 'A' <= c <= 'Z' {
        ((c as u32) + 32) as char
    } else {
        c
    }
}

pub open spec fn lower_seq(s: Seq<char>) -> Seq<char> {
    s.map_values(|c: char| ascii_lower(c))
}

pub open spec fn starts_with(s: Seq<char>, prefix: Seq<char>) -> bool {
    prefix.len() <= s.len() && s.take(prefix.len() as int) == prefix
}

pub open spec fn ends_with(s: Seq<char>, suffix: Seq<char>) -> bool {
    suffix.len() <= s.len() && s.skip(s.len() - suffix.len()) == suffix
}

pub open spec fn contains_char(s: Seq<char>, c: char) -> bool {
    exists|i: int| 0 <= i < s.len() && s[i] == c
}

/// Strict lexicographic order on characters, as `str`'s `Ord` gives it.
pub open spec fn seq_lt(a: Seq<char>, b: Seq<char>) -> bool
    decreases a.len(),
{
    if a.len() == 0 {
        b.len() > 0
    } else if b.len() == 0 {
        false
    } else if a[0] != b[0] {
        a[0] < b[0]
    } else {
        seq_lt(a.drop_first(), b.drop_first())
    }
}

// ---------------------------------------------------------------------------
// Lemmas
// ---------------------------------------------------------------------------

pub proof fn lemma_leading_count(s: Seq<char>, p: spec_fn(char) -> bool, k: int)
    requires
        0 <= k <= s.len(),
        forall|i: int| 0 <= i < k ==> p(#[trigger] s[i]),
        k == s.len() || !p(s[k]),
    ensures
        leading_count(s, p) == k,
    decreases s.len(),
{
    if s.len() > 0 && p(s[0]) {
        assert(k > 0);
        assert forall|i: int| 0 <= i < k - 1 implies p(#[trigger] s.drop_first()[i]) by {
            assert(s.drop_first()[i] == s[i + 1]);
        }
        lemma_leading_count(s.drop_first(), p, k - 1);
    }
}

pub proof fn lemma_trailing_count(s: Seq<char>, p: spec_fn(char) -> bool, k: int)
    requires
        0 <= k <= s.len(),
        forall|i: int| s.len() - k <= i < s.len() ==> p(#[trigger] s[i]),
        k == s.len() || !p(s[s.len() - k - 1]),
    ensures
        trailing_count(s, p) == k,
    decreases s.len(),
{
    if s.len() > 0 && p(s.last()) {
        assert(k > 0);
        let t = s.drop_last();
        assert forall|i: int| t.len() - (k - 1) <= i < t.len() implies p(#[trigger] t[i]) by {
            assert(t[i] == s[i]);
        }
        if k - 1 < t.len() {
            assert(t[t.len() - (k - 1) - 1] == s[s.len() - k - 1]);
        }
        lemma_trailing_count(t, p, k - 1);
    }
}

pub proof fn lemma_leading_count_bounds(s: Seq<char>, p: spec_fn(char) -> bool)
    ensures
        leading_count(s, p) <= s.len(),
        forall|i: int| 0 <= i < leading_count(s, p) ==> p(#[trigger] s[i]),
        leading_count(s, p) < s.len() ==> !p(s[leading_count(s, p) as int]),
    decreases s.len(),
{
    if s.len() > 0 && p(s[0]) {
        lemma_leading_count_bounds(s.drop_first(), p);
        assert forall|i: int| 0 <= i < leading_count(s, p) implies p(#[trigger] s[i]) by {
            if i > 0 {
                assert(s[i] == s.drop_first()[i - 1]);
            }
        }
        if leading_count(s, p) < s.len() {
            assert(s[leading_count(s, p) as int] == s.drop_first()[leading_count(s, p) - 1]);
        }
    }
}

/// `trim_start_by` and `trim_end_by` as a skip and a take.
pub proof fn lemma_trim_forms(s: Seq<char>, p: spec_fn(char) -> bool)
    ensures
        trim_start_by(s, p) == s.skip(leading_count(s, p) as int),
        trim_end_by(s, p) == s.take(s.len() - trailing_count(s, p)),
{
    assert(s.skip(0) =~= s);
    assert(s.take(s.len() as int) =~= s);
}

/// Trimming removes nothing from a sequence whose ends do not satisfy `p`.
pub proof fn lemma_trim_by_unchanged(s: Seq<char>, p: spec_fn(char) -> bool)
    requires
        s.len() == 0 || (!p(s[0]) && !p(s.last())),
    ensures
        trim_start_by(s, p) == s,
        trim_end_by(s, p) == s,
        trim_by(s, p) == s,
{
    if s.len() > 0 {
        lemma_leading_count(s, p, 0);
        lemma_trailing_count(s, p, 0);
    }
    assert(s.skip(0) =~= s);
    assert(s.take(s.len() as int) =~= s);
}

/// `str::trim` leaves a string alone whose first and last characters are
/// not whitespace.
pub proof fn lemma_trim_unchanged(s: Seq<char>)
    requires
        s.len() == 0 || (!unicode_whitespace(s[0]) && !unicode_whitespace(s.last())),
    ensures
        trim(s) == s,
{
    lemma_trim_by_unchanged(s, ws());
}

/// What `trim_by` leaves starts and ends with characters that `p` refuses.
pub proof fn lemma_trim_by_ends(s: Seq<char>, p: spec_fn(char) -> bool)
    ensures
        trim_start_by(s, p).len() > 0 ==> !p(trim_start_by(s, p)[0]),
        trim_end_by(s, p).len() > 0 ==> !p(trim_end_by(s, p).last()),
        trim_by(s, p).len() > 0 ==> !p(trim_by(s, p)[0]) && !p(trim_by(s, p).last()),
{
    lemma_leading_count_bounds(s, p);
    lemma_trailing_count_bounds(s, p);
    let t = trim_start_by(s, p);
    lemma_trailing_count_bounds(t, p);
    lemma_leading_count_bounds(t, p);
    if trim_by(s, p).len() > 0 {
        assert(trim_by(s, p)[0] == t[0]);
    }
}

pub proof fn lemma_trailing_count_bounds(s: Seq<char>, p: spec_fn(char) -> bool)
    ensures
        trailing_count(s, p) <= s.len(),
        forall|i: int| s.len() - trailing_count(s, p) <= i < s.len() ==> p(#[trigger] s[i]),
        trailing_count(s, p) < s.len() ==> !p(s[s.len() - trailing_count(s, p) - 1]),
    decreases s.len(),
{
    if s.len() > 0 && p(s.last()) {
        let t = s.drop_last();
        lemma_trailing_count_bounds(t, p);
        assert forall|i: int| s.len() - trailing_count(s, p) <= i < s.len() implies p(
            #[trigger] s[i],
        ) by {
            if i < s.len() - 1 {
                assert(s[i] == t[i]);
            }
        }
        if trailing_count(s, p) < s.len() {
            assert(s[s.len() - trailing_count(s, p) - 1] == t[t.len() - trailing_count(t, p)
                - 1]);
        }
    }
}

pub proof fn lemma_seq_lt_irreflexive(a: Seq<char>)
    ensures
        !seq_lt(a, a),
    decreases a.len(),
{
    if a.len() > 0 {
        lemma_seq_lt_irreflexive(a.drop_first());
    }
}

pub proof fn lemma_seq_lt_asymmetric(a: Seq<char>, b: Seq<char>)
    ensures
        seq_lt(a, b) ==> !seq_lt(b, a),
    decreases a.len(),
{
    if a.len() > 0 && b.len() > 0 && a[0] == b[0] {
        lemma_seq_lt_asymmetric(a.drop_first(), b.drop_first());
    }
}

pub proof fn lemma_seq_lt_transitive(a: Seq<char>, b: Seq<char>, c: Seq<char>)
    requires
        seq_lt(a, b),
        seq_lt(b, c),
    ensures
        seq_lt(a, c),
    decreases a.len(),
{
    if a.len() > 0 && b.len() > 0 && c.len() > 0 && a[0] == b[0] && b[0] == c[0] {
        lemma_seq_lt_transitive(a.drop_first(), b.drop_first(), c.drop_first());
    }
}

pub proof fn lemma_seq_lt_total(a: Seq<char>, b: Seq<char>)
    ensures
        a == b || seq_lt(a, b) || seq_lt(b, a),
    decreases a.len(),
{
    if a.len() > 0 && b.len() > 0 && a[0] == b[0] {
        lemma_seq_lt_total(a.drop_first(), b.drop_first());
        if a.drop_first() == b.drop_first() {
            assert(a.len() == b.len()) by {
                assert(a.drop_first().len() == b.drop_first().len());
            }
            assert(a =~= b) by {
                assert forall|i: int| 0 <= i < a.len() implies a[i] == b[i] by {
                    if i > 0 {
                        assert(a[i] == a.drop_first()[i - 1]);
                        assert(b[i] == b.drop_first()[i - 1]);
                    }
                }
            }
        }
    } else if a.len() == 0 && b.len() == 0 {
        assert(a =~= b);
    }
}

// ---------------------------------------------------------------------------
// Conversions
// ---------------------------------------------------------------------------

/// The characters of `s`, in order.
pub fn chars_of(s: &str) -> (v: Vec<char>)
    ensures
        v@ == s@,
{
    let n = s.unicode_len();
    let mut v: Vec<char> = Vec::new();
    let mut i: usize = 0;
    while i < n
        invariant
            n == s@.len(),
            i <= n,
            v@ == s@.subrange(0, i as int),
        decreases n - i,
    {
        let c = s.get_char(i);
        v.push(c);
        i = i + 1;
        assert(v@ =~= s@.subrange(0, i as int));
    }
    assert(v@ =~= s@);
    v
}

/// A `String` holding exactly the characters `v[from..to]`.
pub fn string_of_range(v: &Vec<char>, from: usize, to: usize) -> (s: String)
    requires
        from <= to <= v.len(),
    ensures
        s@ == v@.subrange(from as int, to as int),
{
    let mut s = String::new();
    let mut i = from;
    while i < to
        invariant
            from <= i <= to <= v.len(),
            s@ == v@.subrange(from as int, i as int),
        decreases to - i,
    {
        push_char(&mut s, v[i]);
        i = i + 1;
        assert(s@ =~= v@.subrange(from as int, i as int));
    }
    s
}

/// A `String` holding exactly the characters of `v`.
pub fn string_of(v: &Vec<char>) -> (s: String)
    ensures
        s@ == v@,
{
    let s = string_of_range(v, 0, v.len());
    assert(v@.subrange(0, v@.len() as int) =~= v@);
    s
}

/// A fresh copy of `s`.
pub fn copy_string(s: &String) -> (r: String)
    ensures
        r == *s,
        r@ == s@,
{
    s.clone()
}

/// `a + b` as a new `String`.
pub fn concat_str(a: &str, b: &str) -> (r: String)
    ensures
        r@ == a@ + b@,
{
    let mut r = String::from_str(a);
    r.append(b);
    r
}

/// Appends `other` to `s`.
pub fn append_str(s: &mut String, other: &str)
    ensures
        final(s)@ == old(s)@ + other@,
{
    s.append(other);
}

// ---------------------------------------------------------------------------
// Character classes
// ---------------------------------------------------------------------------

pub fn char_is_ascii_digit(c: char) -> (r: bool)
    ensures
        r == is_ascii_digit(c),
{
    c >= '0' && c <= '9'
}

pub fn char_is_ascii_alphanumeric(c: char) -> (r: bool)
    ensures
        r == is_ascii_alphanumeric(c),
{
    (c >= '0' && c <= '9') || (c >= 'a' && c <= 'z') || (c >= 'A' && c <= 'Z')
}

pub fn char_is_ascii_hexdigit(c: char) -> (r: bool)
    ensures
        r == is_ascii_hexdigit(c),
{
    (c >= '0' && c <= '9') || (c >= 'a' && c <= 'f') || (c >= 'A' && c <= 'F')
}

pub fn char_to_ascii_lower(c: char) -> (r: char)
    ensures
        r == ascii_lower(c),
{
    if c >= 'A' && c <= 'Z' {
        let code: u8 = (c as u8) + 32;
        code as char
    } else {
        c
    }
}

// ---------------------------------------------------------------------------
// Trimming
// ---------------------------------------------------------------------------

/// Which characters a trim removes.
#[derive(Clone, Copy)]
pub enum Trimmer {
    Whitespace,
    Char(char),
}

impl Trimmer {
    pub open spec fn pred(self) -> spec_fn(char) -> bool {
        match self {
            Trimmer::Whitespace => ws(),
            Trimmer::Char(x) => is_char(x),
        }
    }

    pub fn removes(&self, c: char) -> (r: bool)
        ensures
            r == self.pred()(c),
    {
        match self {
            Trimmer::Whitespace => is_whitespace(c),
            Trimmer::Char(x) => c == *x,
        }
    }
}

/// Copies `v[from..to]` into a new vector.
pub fn sub_vec(v: &Vec<char>, from: usize, to: usize) -> (r: Vec<char>)
    requires
        from <= to <= v.len(),
    ensures
        r@ == v@.subrange(from as int, to as int),
{
    let mut r: Vec<char> = Vec::new();
    let mut i = from;
    while i < to
        invariant
            from <= i <= to <= v.len(),
            r@ == v@.subrange(from as int, i as int),
        decreases to - i,
    {
        r.push(v[i]);
        i = i + 1;
        assert(r@ =~= v@.subrange(from as int, i as int));
    }
    r
}

/// How many leading characters of `v` the trimmer removes.
pub fn leading_len(v: &Vec<char>, t: Trimmer) -> (k: usize)
    ensures
        k == leading_count(v@, t.pred()),
{
    let mut i: usize = 0;
    while i < v.len() && t.removes(v[i])
        invariant
            i <= v.len(),
            forall|j: int| 0 <= j < i ==> t.pred()(#[trigger] v@[j]),
        decreases v.len() - i,
    {
        i = i + 1;
    }
    proof {
        lemma_leading_count(v@, t.pred(), i as int);
    }
    i
}

/// How many trailing characters of `v` the trimmer removes.
pub fn trailing_len(v: &Vec<char>, t: Trimmer) -> (k: usize)
    ensures
        k == trailing_count(v@, t.pred()),
{
    let mut k: usize = 0;
    while k < v.len() && t.removes(v[v.len() - 1 - k])
        invariant
            k <= v.len(),
            forall|j: int| v.len() - k <= j < v.len() ==> t.pred()(#[trigger] v@[j]),
        decreases v.len() - k,
    {
        k = k + 1;
    }
    proof {
        lemma_trailing_count(v@, t.pred(), k as int);
    }
    k
}

pub fn trim_start_vec(v: &Vec<char>, t: Trimmer) -> (r: Vec<char>)
    ensures
        r@ == trim_start_by(v@, t.pred()),
{
    let k = leading_len(v, t);
    proof {
        lemma_leading_count_bounds(v@, t.pred());
    }
    let r = sub_vec(v, k, v.len());
    assert(r@ =~= v@.skip(k as int));
    r
}

pub fn trim_end_vec(v: &Vec<char>, t: Trimmer) -> (r: Vec<char>)
    ensures
        r@ == trim_end_by(v@, t.pred()),
{
    let k = trailing_len(v, t);
    proof {
        lemma_trailing_count_bounds(v@, t.pred());
    }
    let r = sub_vec(v, 0, v.len() - k);
    assert(r@ =~= v@.take(v.len() - k));
    r
}

pub fn trim_vec(v: &Vec<char>, t: Trimmer) -> (r: Vec<char>)
    ensures
        r@ == trim_by(v@, t.pred()),
{
    let a = trim_start_vec(v, t);
    trim_end_vec(&a, t)
}

/// The characters of `s.trim()`.
pub fn trimmed_chars(s: &str) -> (r: Vec<char>)
    ensures
        r@ == trim(s@),
{
    let v = chars_of(s);
    trim_vec(&v, Trimmer::Whitespace)
}

/// `s.trim()` as an owned `String`.
pub fn trimmed_string(s: &str) -> (r: String)
    ensures
        r@ == trim(s@),
{
    let v = trimmed_chars(s);
    string_of(&v)
}

/// Whether `a` and `b` hold the same characters.
pub fn vec_eq(a: &Vec<char>, b: &Vec<char>) -> (r: bool)
    ensures
        r == (a@ == b@),
{
    if a.len() != b.len() {
        return false;
    }
    let mut i: usize = 0;
    while i < a.len()
        invariant
            a.len() == b.len(),
            i <= a.len(),
            forall|j: int| 0 <= j < i ==> a@[j] == b@[j],
        decreases a.len() - i,
    {
        if a[i] != b[i] {
            return false;
        }
        i = i + 1;
    }
    assert(a@ =~= b@);
    true
}

/// Whether `s` holds the characters of the literal or string `lit`.
pub fn vec_eq_str(a: &Vec<char>, lit: &str) -> (r: bool)
    ensures
        r == (a@ == lit@),
{
    let b = chars_of(lit);
    vec_eq(a, &b)
}

/// Whether `v` starts with the characters of `prefix`.
pub fn vec_starts_with(v: &Vec<char>, prefix: &Vec<char>) -> (r: bool)
    ensures
        r == starts_with(v@, prefix@),
{
    if prefix.len() > v.len() {
        return false;
    }
    let mut i: usize = 0;
    while i < prefix.len()
        invariant
            prefix.len() <= v.len(),
            i <= prefix.len(),
            forall|j: int| 0 <= j < i ==> v@[j] == prefix@[j],
        decreases prefix.len() - i,
    {
        if v[i] != prefix[i] {
            assert(v@.take(prefix.len() as int)[i as int] != prefix@[i as int]);
            return false;
        }
        i = i + 1;
    }
    assert(v@.take(prefix.len() as int) =~= prefix@);
    true
}

/// Whether `v` ends with the characters of `suffix`.
pub fn vec_ends_with(v: &Vec<char>, suffix: &Vec<char>) -> (r: bool)
    ensures
        r == ends_with(v@, suffix@),
{
    if suffix.len() > v.len() {
        return false;
    }
    let off = v.len() - suffix.len();
    let mut i: usize = 0;
    while i < suffix.len()
        invariant
            suffix.len() <= v.len(),
            off == v.len() - suffix.len(),
            i <= suffix.len(),
            forall|j: int| 0 <= j < i ==> v@[off + j] == suffix@[j],
        decreases suffix.len() - i,
    {
        if v[off + i] != suffix[i] {
            assert(v@.skip(off as int)[i as int] != suffix@[i as int]);
            return false;
        }
        i = i + 1;
    }
    assert(v@.skip(off as int) =~= suffix@);
    true
}

/// The ASCII-lowercased copy of `v`.
pub fn lower_vec(v: &Vec<char>) -> (r: Vec<char>)
    ensures
        r@ == lower_seq(v@),
{
    let mut r: Vec<char> = Vec::new();
    let mut i: usize = 0;
    while i < v.len()
        invariant
            i <= v.len(),
            r@ == lower_seq(v@.take(i as int)),
        decreases v.len() - i,
    {
        let c = char_to_ascii_lower(v[i]);
        r.push(c);
        i = i + 1;
        assert(r@ =~= lower_seq(v@.take(i as int)));
    }
    assert(v@.take(v.len() as int) =~= v@);
    r
}

/// Strict lexicographic comparison `a < b`.
pub fn vec_lt(a: &Vec<char>, b: &Vec<char>) -> (r: bool)
    ensures
        r == seq_lt(a@, b@),
{
    let mut i: usize = 0;
    assert(a@.skip(0) =~= a@);
    assert(b@.skip(0) =~= b@);
    while i < a.len() && i < b.len() && a[i] == b[i]
        invariant
            i <= a.len(),
            i <= b.len(),
            forall|j: int| 0 <= j < i ==> a@[j] == b@[j],
            seq_lt(a@, b@) == seq_lt(a@.skip(i as int), b@.skip(i as int)),
        decreases a.len() - i,
    {
        proof {
            let sa = a@.skip(i as int);
            let sb = b@.skip(i as int);
            assert(sa.drop_first() =~= a@.skip(i + 1));
            assert(sb.drop_first() =~= b@.skip(i + 1));
        }
        i = i + 1;
    }
    let sa = Ghost(a@.skip(i as int));
    let sb = Ghost(b@.skip(i as int));
    if i == a.len() {
        assert(sa@.len() == 0);
        i < b.len()
    } else if i == b.len() {
        false
    } else {
        assert(sa@[0] == a@[i as int]);
        assert(sb@[0] == b@[i as int]);
        a[i] < b[i]
    }
}

// ---------------------------------------------------------------------------
// Splitting, joining, integers
// ---------------------------------------------------------------------------

/// What `str::split(c)` yields, as character sequences.
pub open spec fn split_char(s: Seq<char>, c: char) -> Seq<Seq<char>>
    decreases s.len(),
{
    if s.len() == 0 {
        seq![Seq::<char>::empty()]
    } else {
        let prev = split_char(s.drop_last(), c);
        if s.last() == c {
            prev.push(Seq::<char>::empty())
        } else {
            prev.update(prev.len() - 1, prev.last().push(s.last()))
        }
    }
}

pub proof fn lemma_split_char_nonempty(s: Seq<char>, c: char)
    ensures
        split_char(s, c).len() >= 1,
    decreases s.len(),
{
    if s.len() > 0 {
        lemma_split_char_nonempty(s.drop_last(), c);
    }
}

/// `parts` joined with `sep` between consecutive parts.
pub open spec fn join_with(parts: Seq<Seq<char>>, sep: Seq<char>) -> Seq<char>
    decreases parts.len(),
{
    if parts.len() == 0 {
        Seq::empty()
    } else if parts.len() == 1 {
        parts[0]
    } else {
        join_with(parts.drop_last(), sep) + sep + parts.last()
    }
}

pub open spec fn digit_value(c: char) -> int {
    (c as int) - ('0' as int)
}

pub open spec fn all_digits(s: Seq<char>) -> bool {
    forall|i: int| 0 <= i < s.len() ==> is_ascii_digit(#[trigger] s[i])
}

/// The value of a run of decimal digits.
pub open spec fn digits_value(s: Seq<char>) -> int
    decreases s.len(),
{
    if s.len() == 0 {
        0
    } else {
        digits_value(s.drop_last()) * 10 + digit_value(s.last())
    }
}

/// What `str::parse::<i32>()` accepts: an optional `+` or `-`, then at least
/// one decimal digit, with the value in `i32` range.
pub open spec fn parse_i32(s: Seq<char>) -> Option<int> {
    let signed = s.len() > 0 && (s[0] == '+' || s[0] == '-');
    let body = if signed { s.drop_first() } else { s };
    if body.len() > 0 && all_digits(body) {
        let v = if signed && s[0] == '-' { -digits_value(body) } else { digits_value(body) };
        if i32::MIN <= v <= i32::MAX { Some(v) } else { None }
    } else {
        None
    }
}

pub open spec fn digit_char(d: int) -> char {
    (d + 48) as char
}

/// The decimal digits of `n`, as `Display` writes them.
pub open spec fn decimal_nat(n: nat) -> Seq<char>
    decreases n,
{
    if n < 10 {
        seq![digit_char(n as int)]
    } else {
        decimal_nat(n / 10).push(digit_char((n % 10) as int))
    }
}

/// `n` as `Display` writes it: a minus sign for negatives, then the digits.
pub open spec fn decimal(n: int) -> Seq<char> {
    if n < 0 {
        seq!['-'] + decimal_nat((-n) as nat)
    } else {
        decimal_nat(n as nat)
    }
}

proof fn lemma_digits_value_nonneg(s: Seq<char>)
    requires
        all_digits(s),
    ensures
        digits_value(s) >= 0,
    decreases s.len(),
{
    if s.len() > 0 {
        assert(all_digits(s.drop_last())) by {
            assert forall|i: int| 0 <= i < s.drop_last().len() implies is_ascii_digit(
                #[trigger] s.drop_last()[i],
            ) by {
                assert(s.drop_last()[i] == s[i]);
            }
        }
        lemma_digits_value_nonneg(s.drop_last());
        assert(is_ascii_digit(s[s.len() - 1]));
    }
}

/// Splits `v` at every `c`.
pub fn split_vec(v: &Vec<char>, c: char) -> (parts: Vec<Vec<char>>)
    ensures
        parts@.map_values(|p: Vec<char>| p@) == split_char(v@, c),
{
    let mut parts: Vec<Vec<char>> = Vec::new();
    let mut cur: Vec<char> = Vec::new();
    let mut i: usize = 0;
    while i < v.len()
        invariant
            i <= v.len(),
            parts@.map_values(|p: Vec<char>| p@).push(cur@) == split_char(v@.take(i as int), c),
        decreases v.len() - i,
    {
        let ghost before = parts@.map_values(|p: Vec<char>| p@).push(cur@);
        assert(v@.take(i + 1).drop_last() =~= v@.take(i as int));
        assert(v@.take(i + 1).last() == v@[i as int]);
        proof {
            lemma_split_char_nonempty(v@.take(i as int), c);
        }
        if v[i] == c {
            let done = cur;
            parts.push(done);
            cur = Vec::new();
            assert(parts@.map_values(|p: Vec<char>| p@).push(cur@) =~= before.push(
                Seq::<char>::empty(),
            ));
        } else {
            cur.push(v[i]);
            assert(parts@.map_values(|p: Vec<char>| p@).push(cur@) =~= before.update(
                before.len() - 1,
                before.last().push(v@[i as int]),
            ));
        }
        i = i + 1;
    }
    assert(v@.take(v.len() as int) =~= v@);
    let ghost before = parts@.map_values(|p: Vec<char>| p@);
    parts.push(cur);
    assert(parts@.map_values(|p: Vec<char>| p@) =~= before.push(cur@));
    parts
}

/// Parses `v` as `str::parse::<i32>` does.
pub fn parse_i32_vec(v: &Vec<char>) -> (r: Option<i32>)
    ensures
        match parse_i32(v@) {
            Some(x) => r == Some(x as i32),
            None => r is None,
        },
{
    let signed = v.len() > 0 && (v[0] == '+' || v[0] == '-');
    let negative = signed && v[0] == '-';
    let start: usize = if signed { 1 } else { 0 };
    let ghost body = if signed { v@.drop_first() } else { v@ };
    if start >= v.len() {
        assert(body.len() == 0);
        return None;
    }
    let mut acc: i64 = 0;
    let mut big = false;
    let mut i: usize = start;
    while i < v.len()
        invariant
            start <= i <= v.len(),
            start == (if signed { 1usize } else { 0usize }),
            signed == (v@.len() > 0 && (v@[0] == '+' || v@[0] == '-')),
            negative == (signed && v@[0] == '-'),
            body == (if signed { v@.drop_first() } else { v@ }),
            body == v@.skip(start as int),
            forall|j: int| 0 <= j < i - start ==> is_ascii_digit(#[trigger] body[j]),
            !big ==> acc == digits_value(body.take(i - start)),
            !big ==> 0 <= acc <= 2147483648,
            big ==> digits_value(body.take(i - start)) > 2147483648,
        decreases v.len() - i,
    {
        let ch = v[i];
        if !char_is_ascii_digit(ch) {
            assert(body[i - start] == ch);
            assert(!all_digits(body));
            return None;
        }
        let ghost prefix = body.take(i - start);
        let ghost next = body.take(i - start + 1);
        assert(next.drop_last() =~= prefix);
        assert(next.last() == ch);
        let d: i64 = (ch as u32 - '0' as u32) as i64;
        proof {
            assert(all_digits(prefix)) by {
                assert forall|j: int| 0 <= j < prefix.len() implies is_ascii_digit(
                    #[trigger] prefix[j],
                ) by {
                    assert(prefix[j] == body[j]);
                }
            }
            lemma_digits_value_nonneg(prefix);
        }
        if !big {
            acc = acc * 10 + d;
            if acc > 2147483648 {
                big = true;
            }
        }
        i = i + 1;
    }
    assert(body.take(v.len() - start) =~= body);
    if big {
        return None;
    }
    let value: i64 = if negative { -acc } else { acc };
    if value < -2147483648 || value > 2147483647 {
        return None;
    }
    Some(value as i32)
}

/// Appends the decimal digits of `n`.
pub fn push_decimal_u64(out: &mut String, n: u64)
    ensures
        final(out)@ == old(out)@ + decimal_nat(n as nat),
    decreases n,
{
    if n >= 10 {
        push_decimal_u64(out, n / 10);
    }
    let d: u8 = (n % 10) as u8;
    push_char(out, (d + 48) as char);
    assert(decimal_nat(n as nat) == (if n < 10 {
        seq![digit_char(n as int)]
    } else {
        decimal_nat((n / 10) as nat).push(digit_char((n % 10) as int))
    }));
}

/// Appends `n` as `Display` writes it.
pub fn push_decimal_i32(out: &mut String, n: i32)
    ensures
        final(out)@ == old(out)@ + decimal(n as int),
{
    if n < 0 {
        push_char(out, '-');
        let m: u64 = (0i64 - n as i64) as u64;
        let ghost mid = out@;
        push_decimal_u64(out, m);
        assert(out@ =~= old(out)@ + (seq!['-'] + decimal_nat(m as nat)));
    } else {
        push_decimal_u64(out, n as u64);
    }
}

/// What `str::parse::<u16>()` accepts: an optional `+`, then at least one
/// decimal digit, with the value in `u16` range.
pub open spec fn parse_u16(s: Seq<char>) -> Option<int> {
    if s.len() > 0 && s[0] == '-' {
        None
    } else {
        match parse_i32(s) {
            Some(v) => if v <= u16::MAX { Some(v) } else { None },
            None => None,
        }
    }
}

/// Parses `v` as `str::parse::<u16>` does.
pub fn parse_u16_vec(v: &Vec<char>) -> (r: Option<u16>)
    ensures
        match parse_u16(v@) {
            Some(x) => r == Some(x as u16),
            None => r is None,
        },
{
    if v.len() > 0 && v[0] == '-' {
        return None;
    }
    match parse_i32_vec(v) {
        Some(x) => {
            proof {
                let signed = v@.len() > 0 && (v@[0] == '+' || v@[0] == '-');
                let body = if signed { v@.drop_first() } else { v@ };
                lemma_digits_value_nonneg(body);
            }
            if x <= 65535 { Some(x as u16) } else { None }
        },
        None => None,
    }
}

/// Whether `needle` occurs in `s` as a run of consecutive characters.
pub open spec fn contains_seq(s: Seq<char>, needle: Seq<char>) -> bool {
    exists|i: int| 0 <= i && i + needle.len() <= s.len() && #[trigger] s.subrange(i, i + needle.len()) == needle
}

fn matches_at(v: &Vec<char>, needle: &Vec<char>, at: usize) -> (r: bool)
    requires
        at + needle@.len() <= v@.len(),
    ensures
        r == (v@.subrange(at as int, at + needle@.len()) == needle@),
{
    let mut k: usize = 0;
    while k < needle.len()
        invariant
            at + needle@.len() <= v@.len(),
            v@.len() == v.len(),
            k <= needle@.len(),
            forall|j: int| 0 <= j < k ==> v@[at + j] == needle@[j],
        decreases needle.len() - k,
    {
        if v[at + k] != needle[k] {
            assert(v@.subrange(at as int, at + needle@.len())[k as int] != needle@[k as int]);
            return false;
        }
        k = k + 1;
    }
    assert(v@.subrange(at as int, at + needle@.len()) =~= needle@);
    true
}

/// Whether `needle` occurs in `v`.
pub fn vec_contains_seq(v: &Vec<char>, needle: &Vec<char>) -> (r: bool)
    ensures
        r == contains_seq(v@, needle@),
{
    if needle.len() > v.len() {
        return false;
    }
    if needle.len() == 0 {
        assert(v@.subrange(0int, 0int + needle@.len()) =~= needle@);
        return true;
    }
    let last = v.len() - needle.len();
    let mut i: usize = 0;
    while i <= last
        invariant
            last == v@.len() - needle@.len(),
            needle@.len() <= v@.len(),
            needle@.len() > 0,
            v@.len() == v.len(),
            i <= last + 1,
            forall|j: int| 0 <= j < i ==> #[trigger] v@.subrange(j, j + needle@.len()) != needle@,
        decreases last + 1 - i,
    {
        if matches_at(v, needle, i) {
            return true;
        }
        if i == last {
            return false;
        }
        i = i + 1;
    }
    false
}

} // verus!
