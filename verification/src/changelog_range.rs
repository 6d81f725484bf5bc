//! The custom changelog range picker: a `from` tag and an optional `to` tag
//! chosen among the scope's tags (newest first), where `to` is always newer
//! than `from` and a missing `to` stands for `HEAD`.

use vstd::prelude::*;
use crate::layout::{clamp_offset, wrap_index};
use crate::std_changelog::string_views;
use crate::text::concat_str;

verus! {

/// Which end of the range the arrow keys move.
#[derive(Clone, Copy, PartialEq, Eq, Debug, Structural)]
pub enum CustomChangelogRangeFocus {
    From,
    To,
}

/// A range picked earlier, by tag name.
#[derive(Clone)]
pub struct CustomChangelogSelection {
    pub from_ref: String,
    pub to_ref: Option<String>,
}

pub struct CustomChangelogRangeState {
    pub scope_name: String,
    /// Tags of the scope, newest first.
    pub tags: Vec<String>,
    pub from_index: usize,
    /// `None` means `HEAD`.
    pub to_index: Option<usize>,
    pub focus: CustomChangelogRangeFocus,
}

/// The index of the first element of `s` equal to `x`.
pub open spec fn first_exact_match(s: Seq<Seq<char>>, x: Seq<char>) -> Option<int> {
    if exists|i: int| 0 <= i < s.len() && s[i] == x && forall|j: int| 0 <= j < i ==> #[trigger] s[j] != x {
        Some(choose|i: int| 0 <= i < s.len() && s[i] == x && forall|j: int| 0 <= j < i ==> #[trigger] s[j] != x)
    } else {
        None
    }
}

/// The index where `from` lands for a remembered selection.
pub open spec fn selected_from(tags: Seq<Seq<char>>, selection: Option<CustomChangelogSelection>) -> int {
    match selection {
        Some(sel) => match first_exact_match(tags, sel.from_ref@) {
            Some(i) => i,
            None => 0,
        },
        None => 0,
    }
}

/// The index where `to` lands for a remembered selection: the remembered tag,
/// when it is found and newer than `from`.
pub open spec fn selected_to(tags: Seq<Seq<char>>, selection: Option<CustomChangelogSelection>) -> Option<int> {
    match selection {
        Some(sel) => match sel.to_ref {
            Some(t) => match first_exact_match(tags, t@) {
                Some(j) => if j < selected_from(tags, selection) { Some(j) } else { None },
                None => None,
            },
            None => None,
        },
        None => None,
    }
}

pub open spec fn focus_index(f: CustomChangelogRangeFocus) -> int {
    match f {
        CustomChangelogRangeFocus::From => 0,
        CustomChangelogRangeFocus::To => 1,
    }
}

pub open spec fn focus_at(i: int) -> CustomChangelogRangeFocus {
    if i == 0 { CustomChangelogRangeFocus::From } else { CustomChangelogRangeFocus::To }
}

/// The focus after moving `delta` steps through the two ends, wrapping around.
pub open spec fn cycled_focus(f: CustomChangelogRangeFocus, delta: int) -> CustomChangelogRangeFocus {
    focus_at((focus_index(f) + delta) % 2)
}

/// The position of `to` counted from `HEAD`: 0 for `HEAD`, `t + 1` for tag `t`.
pub open spec fn to_position(to: Option<usize>) -> int {
    match to {
        Some(t) => t + 1,
        None => 0,
    }
}

pub open spec fn clamp_spec(x: int, max: int) -> int {
    if x < 0 { 0 } else if x > max { max } else { x }
}

/// Finds the first tag equal to `x`.
fn find_tag(tags: &Vec<String>, x: &String) -> (r: Option<usize>)
    ensures
        match first_exact_match(string_views(tags@), x@) {
            Some(i) => r == Some(i as usize),
            None => r is None,
        },
{
    let ghost ts = string_views(tags@);
    let mut i: usize = 0;
    while i < tags.len()
        invariant
            i <= tags@.len(),
            ts == string_views(tags@),
            forall|j: int| 0 <= j < i ==> #[trigger] ts[j] != x@,
        decreases tags@.len() - i,
    {
        assert(ts[i as int] == tags@[i as int]@);
        if tags[i] == *x {
            proof {
                let k = first_exact_match(ts, x@);
                assert(k is Some);
                let kk = k->0;
                if kk > i {
                    assert(ts[i as int] != x@);
                }
            }
            return Some(i);
        }
        i = i + 1;
    }
    None
}

impl CustomChangelogRangeState {
    /// `from` indexes a tag (when there are any), and `to` is newer than `from`.
    pub open spec fn wf(&self) -> bool {
        &&& (self.tags.len() == 0 ==> self.from_index == 0 && self.to_index is None)
        &&& (self.tags.len() > 0 ==> self.from_index < self.tags.len())
        &&& (self.to_index matches Some(t) ==> t < self.from_index)
    }

    /// The range starts at the remembered selection when its tags are still
    /// present, else at the latest tag; `to` defaults to `HEAD`.
    pub fn new(
        scope_name: String,
        tags: Vec<String>,
        selection: Option<CustomChangelogSelection>,
    ) -> (s: Self)
        ensures
            s.wf(),
            s.scope_name == scope_name,
            s.tags == tags,
            s.focus == CustomChangelogRangeFocus::From,
            s.from_index == selected_from(string_views(tags@), selection),
            s.to_index == match selected_to(string_views(tags@), selection) {
                Some(j) => Some(j as usize),
                None => None::<usize>,
            },
    {
        let ghost ts = string_views(tags@);
        let mut state = Self {
            scope_name,
            tags,
            from_index: 0,
            to_index: None,
            focus: CustomChangelogRangeFocus::From,
        };
        if let Some(selection) = selection {
            if let Some(from_index) = find_tag(&state.tags, &selection.from_ref) {
                state.from_index = from_index;
            }
            if let Some(to_ref) = &selection.to_ref {
                if let Some(to_index) = find_tag(&state.tags, to_ref) {
                    if to_index < state.from_index {
                        state.to_index = Some(to_index);
                    }
                }
            }
        }
        state.ensure_valid_to_index();
        state
    }

    pub fn has_tags(&self) -> (r: bool)
        ensures
            r == (self.tags.len() > 0),
    {
        self.tags.len() > 0
    }

    /// `>` for the focused end, a blank otherwise.
    pub fn focus_label(&self, focus: CustomChangelogRangeFocus) -> (r: &'static str)
        ensures
            r@ == (if self.focus == focus { ">"@ } else { " "@ }),
    {
        if self.focus == focus { ">" } else { " " }
    }

    /// The tag the range starts from, if there are tags.
    pub fn current_from_ref(&self) -> (r: Option<&str>)
        ensures
            match r {
                Some(t) => self.from_index < self.tags.len() && t@ == self.tags@[self.from_index as int]@,
                None => self.from_index >= self.tags.len(),
            },
    {
        if self.from_index < self.tags.len() {
            Some(self.tags[self.from_index].as_str())
        } else {
            None
        }
    }

    /// The tag the range ends at, or `HEAD`.
    pub fn current_to_ref(&self) -> (r: &str)
        ensures
            r@ == match self.to_index {
                Some(t) => if t < self.tags.len() { self.tags@[t as int]@ } else { "HEAD"@ },
                None => "HEAD"@,
            },
    {
        match self.to_index {
            Some(t) => if t < self.tags.len() {
                self.tags[t].as_str()
            } else {
                "HEAD"
            },
            None => "HEAD",
        }
    }

    /// `from..to`, or a note that the latest commits are shown when there are no tags.
    pub fn range_label(&self) -> (r: String)
        ensures
            r@ == if self.from_index < self.tags.len() {
                self.tags@[self.from_index as int]@ + ".."@ + match self.to_index {
                    Some(t) => if t < self.tags.len() { self.tags@[t as int]@ } else { "HEAD"@ },
                    None => "HEAD"@,
                }
            } else {
                "no tags found; showing the latest 60 commits"@
            },
    {
        match self.current_from_ref() {
            Some(from_ref) => {
                let mut r = concat_str(from_ref, "..");
                r.append(self.current_to_ref());
                r
            },
            None => String::from_str("no tags found; showing the latest 60 commits"),
        }
    }

    /// The chosen range by tag name, to remember it; `None` without tags.
    pub fn selection(&self) -> (r: Option<CustomChangelogSelection>)
        ensures
            match r {
                Some(sel) => {
                    &&& self.from_index < self.tags.len()
                    &&& sel.from_ref@ == self.tags@[self.from_index as int]@
                    &&& match self.to_index {
                        Some(t) => if t < self.tags.len() {
                            sel.to_ref is Some && sel.to_ref->0@ == self.tags@[t as int]@
                        } else {
                            sel.to_ref is None
                        },
                        None => sel.to_ref is None,
                    }
                },
                None => self.from_index >= self.tags.len(),
            },
    {
        let from_ref = match self.current_from_ref() {
            Some(f) => String::from_str(f),
            None => return None,
        };
        let to_ref = match self.to_index {
            Some(t) => if t < self.tags.len() {
                Some(self.tags[t].clone())
            } else {
                None
            },
            None => None,
        };
        Some(CustomChangelogSelection { from_ref, to_ref })
    }

    /// Moves the focus `delta` steps through `From`/`To`, wrapping around.
    pub fn cycle_focus(&mut self, delta: isize)
        ensures
            final(self).focus == cycled_focus(old(self).focus, delta as int),
            final(self).scope_name == old(self).scope_name,
            final(self).tags == old(self).tags,
            final(self).from_index == old(self).from_index,
            final(self).to_index == old(self).to_index,
    {
        let current: usize = match self.focus {
            CustomChangelogRangeFocus::From => 0,
            CustomChangelogRangeFocus::To => 1,
        };
        let next = wrap_index(current, delta, 2);
        self.focus = if next == 0 {
            CustomChangelogRangeFocus::From
        } else {
            CustomChangelogRangeFocus::To
        };
    }

    pub fn select_focus(&mut self, focus: CustomChangelogRangeFocus)
        ensures
            final(self).focus == focus,
            final(self).scope_name == old(self).scope_name,
            final(self).tags == old(self).tags,
            final(self).from_index == old(self).from_index,
            final(self).to_index == old(self).to_index,
    {
        self.focus = focus;
    }

    /// Moves the focused end by `delta` tags; `true` when the range changed.
    pub fn adjust_focused_selection(&mut self, delta: isize) -> (changed: bool)
        requires
            old(self).wf(),
        ensures
            final(self).wf(),
            final(self).tags == old(self).tags,
            final(self).focus == old(self).focus,
            final(self).scope_name == old(self).scope_name,
            old(self).tags.len() == 0 || delta == 0 ==> !changed && *final(self) == *old(self),
            old(self).tags.len() > 0 && delta != 0 ==> match old(self).focus {
                CustomChangelogRangeFocus::From => Self::adjusted_from(*old(self), *final(self), delta as int, changed),
                CustomChangelogRangeFocus::To => Self::adjusted_to(*old(self), *final(self), delta as int, changed),
            },
    {
        if !self.has_tags() || delta == 0 {
            return false;
        }
        match self.focus {
            CustomChangelogRangeFocus::From => self.adjust_from(delta),
            CustomChangelogRangeFocus::To => self.adjust_to(delta),
        }
    }

    /// The first tag's name, or `<no tags>`.
    pub fn display_from(&self) -> (r: String)
        ensures
            r@ == if self.from_index < self.tags.len() { self.tags@[self.from_index as int]@ } else { "<no tags>"@ },
    {
        match self.current_from_ref() {
            Some(f) => String::from_str(f),
            None => String::from_str("<no tags>"),
        }
    }

    pub fn display_to(&self) -> (r: String)
        ensures
            r@ == match self.to_index {
                Some(t) => if t < self.tags.len() { self.tags@[t as int]@ } else { "HEAD"@ },
                None => "HEAD"@,
            },
    {
        String::from_str(self.current_to_ref())
    }

    /// What `ensure_valid_to_index` makes of `(from, to)` for `len` tags.
    pub open spec fn valid_bounds(len: nat, from: usize, to: Option<usize>) -> (usize, Option<usize>) {
        if len == 0 {
            (0, None)
        } else {
            let f = if from < len { from } else { (len - 1) as usize };
            if f == 0 {
                (f, None)
            } else {
                match to {
                    Some(t) => if t >= f { (f, Some((f - 1) as usize)) } else { (f, to) },
                    None => (f, None),
                }
            }
        }
    }

    /// Pulls `from` back onto a tag and `to` back above `from`.
    pub fn ensure_valid_to_index(&mut self)
        ensures
            final(self).wf(),
            final(self).scope_name == old(self).scope_name,
            final(self).tags == old(self).tags,
            final(self).focus == old(self).focus,
            (final(self).from_index, final(self).to_index) == Self::valid_bounds(
                old(self).tags.len() as nat,
                old(self).from_index,
                old(self).to_index,
            ),
    {
        if self.tags.len() == 0 {
            self.from_index = 0;
            self.to_index = None;
            return;
        }
        if self.from_index > self.tags.len() - 1 {
            self.from_index = self.tags.len() - 1;
        }
        if self.from_index == 0 {
            self.to_index = None;
        } else if let Some(t) = self.to_index {
            if t >= self.from_index {
                self.to_index = Some(self.from_index - 1);
            }
        }
    }

    /// `after` is `before` with `from` moved by `delta` (clamped to the tags), and
    /// `changed` tells whether `from` moved.
    pub open spec fn adjusted_from(before: Self, after: Self, delta: int, changed: bool) -> bool {
        let next = clamp_spec(before.from_index + delta, before.tags.len() - 1);
        &&& changed == (next != before.from_index)
        &&& changed ==> (after.from_index, after.to_index) == Self::valid_bounds(
            before.tags.len() as nat,
            next as usize,
            before.to_index,
        )
        &&& !changed ==> after.from_index == before.from_index && after.to_index == before.to_index
    }

    /// `after` is `before` with `to` moved by `delta` positions between `HEAD`
    /// and the tag just above `from`; `changed` tells whether it moved.
    pub open spec fn adjusted_to(before: Self, after: Self, delta: int, changed: bool) -> bool {
        let next = clamp_spec(to_position(before.to_index) + delta, before.from_index as int);
        &&& changed == (next != to_position(before.to_index))
        &&& after.from_index == before.from_index
        &&& to_position(after.to_index) == (if changed { next } else { to_position(before.to_index) })
    }

    /// Moves `from` by `delta` tags (older for positive `delta`), clamped to the
    /// tag list; `to` is pulled along to stay newer than `from`.
    pub fn adjust_from(&mut self, delta: isize) -> (changed: bool)
        requires
            old(self).wf(),
        ensures
            final(self).wf(),
            final(self).tags == old(self).tags,
            final(self).focus == old(self).focus,
            final(self).scope_name == old(self).scope_name,
            old(self).tags.len() == 0 ==> !changed && *final(self) == *old(self),
            old(self).tags.len() > 0 ==> Self::adjusted_from(*old(self), *final(self), delta as int, changed),
    {
        let len = self.tags.len();
        if len == 0 {
            return false;
        }
        let next = clamp_offset(self.from_index, delta, len - 1);
        if next == self.from_index {
            return false;
        }
        self.from_index = next;
        self.ensure_valid_to_index();
        true
    }

    /// Moves `to` by `delta` positions between `HEAD` (position 0) and the
    /// tag just newer than `from`.
    pub fn adjust_to(&mut self, delta: isize) -> (changed: bool)
        requires
            old(self).wf(),
        ensures
            final(self).wf(),
            final(self).tags == old(self).tags,
            final(self).focus == old(self).focus,
            final(self).scope_name == old(self).scope_name,
            Self::adjusted_to(*old(self), *final(self), delta as int, changed),
            !changed ==> *final(self) == *old(self),
    {
        let max_position = self.from_index;
        let current_position: usize = match self.to_index {
            Some(t) => t + 1,
            None => 0,
        };
        let next_position = clamp_offset(current_position, delta, max_position);
        if next_position == current_position {
            return false;
        }
        self.to_index = if next_position == 0 {
            None
        } else {
            Some(next_position - 1)
        };
        true
    }
}

/// Cycling the focus forward and then back by the same amount restores it.
pub proof fn law_cycle_focus_round_trip(f: CustomChangelogRangeFocus, delta: int)
    ensures
        cycled_focus(cycled_focus(f, delta), -delta) == f,
{
    let i = focus_index(f);
    let j = (i + delta) % 2;
    assert(focus_index(focus_at(j)) == j);
    assert((j - delta) % 2 == i) by (nonlinear_arith)
        requires j == (i + delta) % 2, 0 <= i < 2;
}

/// Every reachable range keeps `to` strictly newer than `from`.
pub proof fn law_to_newer_than_from(s: CustomChangelogRangeState)
    requires
        s.wf(),
    ensures
        s.to_index matches Some(t) ==> t < s.from_index,
{
}

} // verus!
