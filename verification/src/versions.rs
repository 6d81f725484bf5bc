//! Version schemes and the overview's `+`/`-` version adjustments.

use vstd::prelude::*;
use crate::text::{
    chars_of, decimal, join_with, parse_i32, parse_i32_vec, push_char, push_decimal_i32,
    split_char, split_vec, string_of,
};

verus! {

/// How a scope numbers its releases.
#[derive(Clone, Copy, PartialEq, Eq, Debug, Structural)]
pub enum VersionScheme {
    SemVer,
    CalVerYearMonthMicro,
}

/// Which component an overview `+`/`-` control changes.
#[derive(Clone, Copy, PartialEq, Eq, Debug, Structural)]
pub enum OverviewVersionControl {
    Major,
    Minor,
    Patch,
    Whole,
}

/// Why a pending version could not be adjusted.
#[derive(Clone, Debug, PartialEq, Eq)]
pub enum VersionAdjustError {
    /// A dot-separated component of a SemVer version is not an `i32`.
    InvalidSemverComponent(String),
    /// A dot-separated component of a numeric version is not an `i32`.
    InvalidNumericComponent(String),
    /// A SemVer version does not have exactly three components.
    NotMajorMinorPatch,
}

impl VersionAdjustError {
    /// The message shown to the user.
    pub fn message(&self) -> (m: String)
        ensures
            m@ == match self {
                VersionAdjustError::InvalidSemverComponent(p) => "invalid semver component '"@ + p@ + "'"@,
                VersionAdjustError::InvalidNumericComponent(p) => "invalid numeric component '"@ + p@ + "'"@,
                VersionAdjustError::NotMajorMinorPatch => "overview semver editing requires MAJOR.MINOR.PATCH"@,
            },
    {
        match self {
            VersionAdjustError::InvalidSemverComponent(p) => {
                let mut m = String::from_str("invalid semver component '");
                m.append(p.as_str());
                m.append("'");
                m
            },
            VersionAdjustError::InvalidNumericComponent(p) => {
                let mut m = String::from_str("invalid numeric component '");
                m.append(p.as_str());
                m.append("'");
                m
            },
            VersionAdjustError::NotMajorMinorPatch => String::from_str(
                "overview semver editing requires MAJOR.MINOR.PATCH",
            ),
        }
    }
}

pub open spec fn all_parse(parts: Seq<Seq<char>>) -> bool {
    forall|i: int| 0 <= i < parts.len() ==> (#[trigger] parse_i32(parts[i])) is Some
}

/// The first component that does not parse.
pub open spec fn first_unparsable(parts: Seq<Seq<char>>) -> int {
    choose|i: int|
        0 <= i < parts.len() && parse_i32(parts[i]) is None && forall|j: int|
            0 <= j < i ==> (#[trigger] parse_i32(parts[j])) is Some
}

pub open spec fn part_values(parts: Seq<Seq<char>>) -> Seq<int> {
    parts.map_values(|p: Seq<char>| parse_i32(p)->0)
}

pub open spec fn control_index(c: OverviewVersionControl) -> int {
    match c {
        OverviewVersionControl::Major => 0,
        OverviewVersionControl::Minor => 1,
        _ => 2,
    }
}

pub open spec fn floor_zero(x: int) -> int {
    if x < 0 { 0 } else { x }
}

/// SemVer adjustment: the chosen component moves by `delta` (not below zero)
/// and the components below it reset to zero.
pub open spec fn semver_adjusted(vals: Seq<int>, control: OverviewVersionControl, delta: int) -> Seq<int> {
    let v = floor_zero(vals[control_index(control)] + delta);
    match control {
        OverviewVersionControl::Major => seq![v, 0, 0],
        OverviewVersionControl::Minor => seq![vals[0], v, 0],
        _ => seq![vals[0], vals[1], v],
    }
}

/// Numeric adjustment: the last component moves by `delta`, not below zero.
pub open spec fn tail_adjusted(vals: Seq<int>, delta: int) -> Seq<int> {
    vals.update(vals.len() - 1, floor_zero(vals.last() + delta))
}

/// Components rendered in decimal and joined with dots.
pub open spec fn render_parts(vals: Seq<int>) -> Seq<char> {
    join_with(vals.map_values(|v: int| decimal(v)), "."@)
}

/// The component `delta` is added to stays within `i32` (else the addition overflows).
pub open spec fn adjustment_fits(
    scheme: VersionScheme,
    current: Seq<char>,
    control: OverviewVersionControl,
    delta: int,
) -> bool {
    let parts = split_char(current, '.');
    let vals = part_values(parts);
    all_parse(parts) ==> match scheme {
        VersionScheme::SemVer => parts.len() == 3 ==> i32::MIN <= vals[control_index(control)] + delta <= i32::MAX,
        _ => i32::MIN <= vals.last() + delta <= i32::MAX,
    }
}

fn render_values(vals: &Vec<i32>) -> (s: String)
    ensures
        s@ == render_parts(vals@.map_values(|v: i32| v as int)),
{
    let ghost vs = vals@.map_values(|v: i32| v as int);
    let ghost ds = vs.map_values(|v: int| decimal(v));
    let mut s = String::new();
    let mut i: usize = 0;
    while i < vals.len()
        invariant
            i <= vals.len(),
            vs == vals@.map_values(|v: i32| v as int),
            ds == vs.map_values(|v: int| decimal(v)),
            s@ == join_with(ds.take(i as int), "."@),
        decreases vals.len() - i,
    {
        assert(ds.take(i + 1).drop_last() =~= ds.take(i as int));
        assert(ds.take(i + 1).last() == decimal(vals@[i as int] as int));
        if i > 0 {
            push_char(&mut s, '.');
            proof {
                assert("."@ =~= seq!['.']) by {
                    reveal_strlit(".");
                }
            }
        }
        push_decimal_i32(&mut s, vals[i]);
        i = i + 1;
        proof {
            if i == 1 {
                assert(join_with(ds.take(0), "."@) =~= Seq::<char>::empty());
                assert(s@ =~= ds.take(1)[0]);
            }
        }
    }
    assert(ds.take(vals.len() as int) =~= ds);
    s
}

/// The pending version after one overview `+`/`-` press.
pub fn adjust_pending_version_value(
    scheme: VersionScheme,
    current: &str,
    control: OverviewVersionControl,
    delta: i32,
) -> (r: Result<String, VersionAdjustError>)
    requires
        adjustment_fits(scheme, current@, control, delta as int),
    ensures
        ({
            let parts = split_char(current@, '.');
            let vals = part_values(parts);
            if !all_parse(parts) {
                match r {
                    Err(VersionAdjustError::InvalidSemverComponent(p)) => scheme == VersionScheme::SemVer
                        && p@ == parts[first_unparsable(parts)],
                    Err(VersionAdjustError::InvalidNumericComponent(p)) => scheme != VersionScheme::SemVer
                        && p@ == parts[first_unparsable(parts)],
                    _ => false,
                }
            } else if scheme == VersionScheme::SemVer {
                if parts.len() != 3 {
                    r == Err::<String, VersionAdjustError>(VersionAdjustError::NotMajorMinorPatch)
                } else {
                    r is Ok && r->Ok_0@ == render_parts(semver_adjusted(vals, control, delta as int))
                }
            } else {
                r is Ok && r->Ok_0@ == render_parts(tail_adjusted(vals, delta as int))
            }
        }),
{
    let chars = chars_of(current);
    let pieces = split_vec(&chars, '.');
    let ghost parts = split_char(current@, '.');
    assert(pieces@.map_values(|p: Vec<char>| p@) == parts);
    proof {
        crate::text::lemma_split_char_nonempty(current@, '.');
    }
    let mut vals: Vec<i32> = Vec::new();
    let mut i: usize = 0;
    while i < pieces.len()
        invariant
            i <= pieces.len(),
            parts == pieces@.map_values(|p: Vec<char>| p@),
            parts == split_char(current@, '.'),
            vals@.len() == i,
            forall|j: int| 0 <= j < i ==> (#[trigger] parse_i32(parts[j])) is Some,
            forall|j: int| 0 <= j < i ==> vals@[j] as int == parse_i32(#[trigger] parts[j])->0,
        decreases pieces.len() - i,
    {
        assert(parts[i as int] == pieces@[i as int]@);
        match parse_i32_vec(&pieces[i]) {
            Some(v) => vals.push(v),
            None => {
                let part = string_of(&pieces[i]);
                proof {
                    assert(parse_i32(parts[i as int]) is None);
                    assert(!all_parse(parts));
                    let ii = i as int;
                    assert(exists|m: int|
                        0 <= m < parts.len() && parse_i32(parts[m]) is None && forall|j: int|
                            0 <= j < m ==> (#[trigger] parse_i32(parts[j])) is Some) by {
                        assert(0 <= ii < parts.len() && parse_i32(parts[ii]) is None && forall|j: int|
                            0 <= j < ii ==> (#[trigger] parse_i32(parts[j])) is Some);
                    }
                    let k = first_unparsable(parts);
                    assert(0 <= k < parts.len() && parse_i32(parts[k]) is None && forall|j: int|
                        0 <= j < k ==> (#[trigger] parse_i32(parts[j])) is Some);
                    if k < ii {
                        assert(parse_i32(parts[k]) is Some);
                    } else if k > ii {
                        assert(parse_i32(parts[ii]) is Some);
                    }
                    assert(k == ii);
                }
                return match scheme {
                    VersionScheme::SemVer => Err(VersionAdjustError::InvalidSemverComponent(part)),
                    _ => Err(VersionAdjustError::InvalidNumericComponent(part)),
                };
            },
        }
        i = i + 1;
    }
    let ghost pv = part_values(parts);
    assert(vals@.map_values(|v: i32| v as int) =~= pv);
    match scheme {
        VersionScheme::SemVer => {
            if vals.len() != 3 {
                return Err(VersionAdjustError::NotMajorMinorPatch);
            }
            let index: usize = match control {
                OverviewVersionControl::Major => 0,
                OverviewVersionControl::Minor => 1,
                _ => 2,
            };
            let moved = vals[index] + delta;
            let v = if moved < 0 { 0 } else { moved };
            let out: Vec<i32> = match control {
                OverviewVersionControl::Major => vec![v, 0, 0],
                OverviewVersionControl::Minor => vec![vals[0], v, 0],
                _ => vec![vals[0], vals[1], v],
            };
            assert(out@.map_values(|x: i32| x as int) =~= semver_adjusted(pv, control, delta as int));
            Ok(render_values(&out))
        },
        _ => {
            let last = vals.len() - 1;
            let moved = vals[last] + delta;
            let v = if moved < 0 { 0 } else { moved };
            vals.set(last, v);
            assert(vals@.map_values(|x: i32| x as int) =~= tail_adjusted(pv, delta as int));
            Ok(render_values(&vals))
        },
    }
}

/// A SemVer `+`/`-` moves the chosen component by the step, never below
/// zero, keeps the components above it, and resets those below it to zero;
/// on the patch, a step up and then a step down gives the version back.
pub proof fn law_semver_steps(vals: Seq<int>, control: OverviewVersionControl, delta: int)
    requires
        vals.len() == 3,
    ensures
        semver_adjusted(vals, control, delta).len() == 3,
        control == OverviewVersionControl::Major ==> semver_adjusted(vals, control, delta)
            == seq![if vals[0] + delta < 0 { 0 } else { vals[0] + delta }, 0, 0],
        control == OverviewVersionControl::Minor ==> semver_adjusted(vals, control, delta)
            == seq![vals[0], if vals[1] + delta < 0 { 0 } else { vals[1] + delta }, 0],
        control == OverviewVersionControl::Patch ==> semver_adjusted(vals, control, delta)
            == seq![vals[0], vals[1], if vals[2] + delta < 0 { 0 } else { vals[2] + delta }],
        vals[2] >= 0 ==> semver_adjusted(semver_adjusted(vals, OverviewVersionControl::Patch, 1), OverviewVersionControl::Patch, -1) == vals,
        forall|i: int| 0 <= i < 3 ==> (#[trigger] semver_adjusted(vals, control, delta)[i]) >= 0 || (i < control_index(control) && vals[i] < 0),
{
    assert(semver_adjusted(semver_adjusted(vals, OverviewVersionControl::Patch, 1), OverviewVersionControl::Patch, -1) =~= vals
        || vals[2] < 0);
}

/// A numeric `+`/`-` moves only the last component, never below zero, and a
/// step up then a step down gives the version back.
pub proof fn law_numeric_steps(vals: Seq<int>, delta: int)
    requires
        vals.len() > 0,
    ensures
        tail_adjusted(vals, delta).len() == vals.len(),
        forall|i: int| 0 <= i < vals.len() - 1 ==> #[trigger] tail_adjusted(vals, delta)[i] == vals[i],
        tail_adjusted(vals, delta).last() == (if vals.last() + delta < 0 { 0 } else { vals.last() + delta }),
        vals.last() >= 0 ==> tail_adjusted(tail_adjusted(vals, 1), -1) == vals,
{
    if vals.last() >= 0 {
        assert(tail_adjusted(tail_adjusted(vals, 1), -1) =~= vals);
    }
}

} // verus!
