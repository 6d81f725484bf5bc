//! The changelog preview dialog's keys: saving, confirming, scrolling, the
//! custom range picker's focus and ends, and typing into the release message.

use vstd::prelude::*;
use crate::changelog_range::{CustomChangelogRangeFocus, CustomChangelogRangeState, cycled_focus};

verus! {

/// A key as the changelog preview sees it.
#[derive(Clone, Copy, Debug, PartialEq, Eq, Structural)]
pub enum PreviewKey {
    Char { c: char, ctrl: bool },
    Esc,
    F2,
    Enter,
    Tab,
    BackTab,
    Left,
    Right,
    PageUp,
    PageDown,
    Home,
    End,
    Other,
}

/// What the preview does for a key, beyond what it changed in the range picker.
#[derive(Clone, Copy, Debug, PartialEq, Eq, Structural)]
pub enum PreviewKeyAction {
    /// Save the changelog as previewed.
    Save,
    /// Close the preview.
    Cancel,
    /// Go ahead with the previewed changelog.
    Confirm,
    /// Rebuild the preview for the range's current selection (the range has
    /// tags, so it has one).
    RefreshPreview,
    /// Scroll the preview by this many lines.
    Scroll(i16),
    ScrollToStart,
    ScrollToEnd,
    /// Pass the key to the release-message editor.
    EditReleaseMessage,
    /// The key was taken by the range picker, with nothing more to do.
    Handled,
    /// A read-only preview ignores the key.
    Ignored,
}

/// `after` is `before` with only its focus set to `focus`.
pub open spec fn with_focus(before: CustomChangelogRangeState, after: CustomChangelogRangeState, focus: CustomChangelogRangeFocus) -> bool {
    &&& after.focus == focus
    &&& after.scope_name == before.scope_name
    &&& after.tags == before.tags
    &&& after.from_index == before.from_index
    &&& after.to_index == before.to_index
}

/// `after` is `before` with its focused end moved by `delta`; `changed` tells
/// whether the range changed.
pub open spec fn moved_end(before: CustomChangelogRangeState, after: CustomChangelogRangeState, delta: int, changed: bool) -> bool {
    &&& after.wf()
    &&& after.tags == before.tags
    &&& after.focus == before.focus
    &&& after.scope_name == before.scope_name
    &&& (before.tags.len() == 0 || delta == 0 ==> !changed && after == before)
    &&& (before.tags.len() > 0 && delta != 0 ==> match before.focus {
        CustomChangelogRangeFocus::From => CustomChangelogRangeState::adjusted_from(before, after, delta, changed),
        CustomChangelogRangeFocus::To => CustomChangelogRangeState::adjusted_to(before, after, delta, changed),
    })
}

/// The action for keys that leave the range picker alone.
pub open spec fn plain_action(key: PreviewKey, has_workflow: bool) -> PreviewKeyAction {
    match key {
        PreviewKey::Char { c: 's', ctrl: true } => PreviewKeyAction::Save,
        PreviewKey::Esc => PreviewKeyAction::Cancel,
        PreviewKey::F2 => PreviewKeyAction::Confirm,
        PreviewKey::Enter if !has_workflow => PreviewKeyAction::Confirm,
        PreviewKey::PageUp => PreviewKeyAction::Scroll(-8i16),
        PreviewKey::PageDown => PreviewKeyAction::Scroll(8i16),
        PreviewKey::Home => PreviewKeyAction::ScrollToStart,
        PreviewKey::End => PreviewKeyAction::ScrollToEnd,
        _ => if has_workflow { PreviewKeyAction::EditReleaseMessage } else { PreviewKeyAction::Ignored },
    }
}

/// Keys the range picker takes (when the preview has one).
pub open spec fn is_range_key(key: PreviewKey) -> bool {
    match key {
        PreviewKey::Tab | PreviewKey::BackTab | PreviewKey::Left | PreviewKey::Right => true,
        PreviewKey::Char { c, ctrl: _ } => (c == '1' || c == '2' || c == 'r' || c == 'R'),
        _ => false,
    }
}

/// Answers a key in the changelog preview. `range` is the custom range picker
/// (for range previews) and `has_workflow` whether the preview belongs to a
/// bump workflow (and so has an editable release message).
pub fn handle_changelog_preview_key(
    range: &mut Option<CustomChangelogRangeState>,
    has_workflow: bool,
    key: PreviewKey,
) -> (action: PreviewKeyAction)
    requires
        (*old(range)) matches Some(r) ==> r.wf(),
    ensures
        !(is_range_key(key) && (*old(range)) is Some) ==> action == plain_action(key, has_workflow) && *final(range) == *old(range),
        is_range_key(key) && (*old(range)) is Some ==> (*final(range)) is Some && {
            let before = (*old(range))->0;
            let after = (*final(range))->0;
            match key {
                PreviewKey::Tab => action == PreviewKeyAction::Handled && with_focus(before, after, cycled_focus(before.focus, 1)),
                PreviewKey::BackTab => action == PreviewKeyAction::Handled && with_focus(before, after, cycled_focus(before.focus, -1)),
                PreviewKey::Left => (action == PreviewKeyAction::RefreshPreview || action == PreviewKeyAction::Handled)
                    && moved_end(before, after, -1, action == PreviewKeyAction::RefreshPreview),
                PreviewKey::Right => (action == PreviewKeyAction::RefreshPreview || action == PreviewKeyAction::Handled)
                    && moved_end(before, after, 1, action == PreviewKeyAction::RefreshPreview),
                PreviewKey::Char { c: '1', ctrl: _ } => action == PreviewKeyAction::Handled
                    && with_focus(before, after, CustomChangelogRangeFocus::From),
                PreviewKey::Char { c: '2', ctrl: _ } => action == PreviewKeyAction::Handled
                    && with_focus(before, after, CustomChangelogRangeFocus::To),
                _ => after == before && action == (if before.tags.len() > 0 {
                    PreviewKeyAction::RefreshPreview
                } else {
                    PreviewKeyAction::Handled
                }),
            }
        },
{
    let range_key = match key {
        PreviewKey::Tab | PreviewKey::BackTab | PreviewKey::Left | PreviewKey::Right => true,
        PreviewKey::Char { c, ctrl: _ } => (c == '1' || c == '2' || c == 'r' || c == 'R'),
        _ => false,
    };
    if range_key {
        match range {
            Some(r) => {
                return match key {
                    PreviewKey::Tab => {
                        r.cycle_focus(1);
                        PreviewKeyAction::Handled
                    },
                    PreviewKey::BackTab => {
                        r.cycle_focus(-1);
                        PreviewKeyAction::Handled
                    },
                    PreviewKey::Left => {
                        let changed = r.adjust_focused_selection(-1);
                        if changed { PreviewKeyAction::RefreshPreview } else { PreviewKeyAction::Handled }
                    },
                    PreviewKey::Right => {
                        let changed = r.adjust_focused_selection(1);
                        if changed { PreviewKeyAction::RefreshPreview } else { PreviewKeyAction::Handled }
                    },
                    PreviewKey::Char { c: '1', ctrl: _ } => {
                        r.select_focus(CustomChangelogRangeFocus::From);
                        PreviewKeyAction::Handled
                    },
                    PreviewKey::Char { c: '2', ctrl: _ } => {
                        r.select_focus(CustomChangelogRangeFocus::To);
                        PreviewKeyAction::Handled
                    },
                    _ => if r.has_tags() { PreviewKeyAction::RefreshPreview } else { PreviewKeyAction::Handled },
                };
            },
            None => {},
        }
    }
    match key {
        PreviewKey::Char { c: 's', ctrl: true } => PreviewKeyAction::Save,
        PreviewKey::Esc => PreviewKeyAction::Cancel,
        PreviewKey::F2 => PreviewKeyAction::Confirm,
        PreviewKey::Enter if !has_workflow => PreviewKeyAction::Confirm,
        PreviewKey::PageUp => PreviewKeyAction::Scroll(-8),
        PreviewKey::PageDown => PreviewKeyAction::Scroll(8),
        PreviewKey::Home => PreviewKeyAction::ScrollToStart,
        PreviewKey::End => PreviewKeyAction::ScrollToEnd,
        _ => if has_workflow { PreviewKeyAction::EditReleaseMessage } else { PreviewKeyAction::Ignored },
    }
}

/// Outside the range picker, Control-S saves, Esc closes, F2 confirms (and
/// Enter too unless the preview has a release message to edit, which then
/// takes every other key); a read-only preview ignores typing.
pub proof fn law_preview_keys(has_workflow: bool, c: char)
    ensures
        plain_action(PreviewKey::Char { c: 's', ctrl: true }, has_workflow) == PreviewKeyAction::Save,
        plain_action(PreviewKey::Esc, has_workflow) == PreviewKeyAction::Cancel,
        plain_action(PreviewKey::F2, has_workflow) == PreviewKeyAction::Confirm,
        plain_action(PreviewKey::Enter, has_workflow) == (if has_workflow {
            PreviewKeyAction::EditReleaseMessage
        } else {
            PreviewKeyAction::Confirm
        }),
        plain_action(PreviewKey::Char { c, ctrl: false }, has_workflow) == (if has_workflow {
            PreviewKeyAction::EditReleaseMessage
        } else {
            PreviewKeyAction::Ignored
        }),
        plain_action(PreviewKey::PageUp, has_workflow) == PreviewKeyAction::Scroll(-8i16)
            && plain_action(PreviewKey::PageDown, has_workflow) == PreviewKeyAction::Scroll(8i16),
{
}

} // verus!
