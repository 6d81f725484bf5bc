//! Project Settings pane: its tab strip, the fields each tab shows for the
//! active scope, keyboard focus movement between them, the rows they are laid
//! out in and the scroll offset that keeps the focused row in view.

use vstd::prelude::*;
use crate::layout::wrap_index;
use crate::text::copy_string;

verus! {

/// The changelog file a scope uses unless configured otherwise.
pub const DEFAULT_CHANGELOG_PATH: &'static str = "CHANGELOG.md";

#[derive(Clone, Copy, Debug, PartialEq, Eq, Structural)]
pub enum ProjectSettingsTab {
    General,
    Git,
    Changelogs,
    Distro,
    RlsQd,
}

#[derive(Clone, Copy, Debug, PartialEq, Eq, Structural)]
pub enum ProjectSettingsFocus {
    ComfyGitFlowEnabled,
    CustomMainBranchEnabled,
    CustomMainBranchName,
    Alias,
    AdvancedAliasEnabled,
    AliasDistPath,
    AliasUiPath,
    AliasCustomAdd,
    AliasCustomDraftName,
    AliasCustomDraftConfirm,
    AliasCustomPath(u16),
    AliasCustomDelete(u16),
    ChangelogEnabled,
    ChangelogPath,
    ChangelogHidePrMessages,
    ChangelogHideBumpMessages,
    ChangelogMiniCommitHashes,
    ChangelogMirrorSummaryToRootChangelog,
    ChangelogWrapDetailedIfTopPicks,
    ReleaseNowEnabled,
    ReleaseNowGeneral,
    ReleaseNowWindows,
    ReleaseNowLinuxArm,
    ReleaseNowLinuxAmd,
    ReleaseNowMacOs,
    QuickDownloadsEnabled,
    QuickDownloadsPosition,
    PostMergeSourceBranch,
    MirrorSyncAfterMerge,
    QuickDownloadsFooter,
    ReadmeInjectionEnabled,
    ReadmeInjectOnlyTopPicks,
    ReadmeInjectAtRow,
    ReadmeInjectDepthCurrentOnly,
    ReadmeInjectDepthLast3,
    ReadmeInjectDepthLast5,
    ReadmeInjectDepthLast10,
    ReleaseTitleTemplate,
}

/// How many releases the README "what's new" injection covers.
#[derive(Clone, Copy, Debug, PartialEq, Eq, Structural)]
pub enum ReadmeInjectDepth {
    CurrentOnly,
    Last3,
    Last5,
    Last10,
}

/// One user-defined alias path.
#[derive(Clone)]
pub struct CustomAliasEntry {
    pub name: String,
    pub path: String,
}

/// A scope's advanced alias configuration.
#[derive(Clone)]
pub struct AdvancedAliasSettings {
    pub enabled: bool,
    pub dist_path: String,
    pub ui_path: String,
    pub custom: Vec<CustomAliasEntry>,
}

/// What the pane reads of the selected project and its active scope, as
/// plain values.
#[derive(Clone)]
pub struct ProjectSettingsSource {
    pub project_name: String,
    /// Whether the project has several scopes (branched) or one.
    pub branched: bool,
    /// Display name and kind name of each scope of a branched project.
    pub scope_names: Vec<String>,
    pub scope_kind_names: Vec<String>,
    /// The integration mode needs a git repository.
    pub requires_repo: bool,
    /// The integration mode mirrors to two forges.
    pub dual_forge: bool,
    pub comfygitflow_enabled: bool,
    pub has_custom_main_branch: bool,
    pub custom_main_branch: String,
    /// The scope has a repository configuration of its own.
    pub has_repo_config: bool,
    pub alias: String,
    pub supports_advanced_alias: bool,
    pub advanced_alias: AdvancedAliasSettings,
    pub changelog_enabled: bool,
    pub changelog_path: String,
    pub changelog_hide_pr_messages: bool,
    pub changelog_hide_bump_messages: bool,
    pub changelog_mini_commit_hashes: bool,
    pub changelog_mirror_summary_to_root_changelog: bool,
    pub changelog_wrap_detailed_if_top_picks: bool,
    pub release_now_enabled: bool,
    pub release_now_general: String,
    pub release_now_windows: String,
    pub release_now_linux_arm: String,
    pub release_now_linux_amd: String,
    pub release_now_macos: String,
    pub quick_downloads_enabled: bool,
    /// Where the Quick-Downloads table goes in the release notes.
    pub quick_downloads_position: PolicyChoice,
    pub quick_downloads_footer: String,
    /// What becomes of a merged MR/PR's source branch.
    pub post_merge_source_branch: PolicyChoice,
    /// When a dual-forge project's mirror is synced.
    pub mirror_sync_after_merge: PolicyChoice,
    pub readme_injection_enabled: bool,
    pub readme_inject_only_top_picks: bool,
    pub readme_inject_depth: ReadmeInjectDepth,
    /// Display names of the inject depths, in the order `CurrentOnly`,
    /// `Last3`, `Last5`, `Last10`.
    pub readme_inject_depth_labels: Vec<String>,
    pub readme_inject_at_row: u16,
    pub release_title_template: String,
}

impl ProjectSettingsSource {
    /// The policy choices point at one of their options.
    pub open spec fn wf(&self) -> bool {
        &&& self.quick_downloads_position.wf()
        &&& self.post_merge_source_branch.wf()
        &&& self.mirror_sync_after_merge.wf()
    }
}

/// One option out of a configuration enum's labelled options, which the pane
/// steps through with the arrow keys (wrapping around).
#[derive(Clone)]
pub struct PolicyChoice {
    /// Display name of each option, in the enum's order.
    pub labels: Vec<String>,
    pub selected: usize,
}

impl PolicyChoice {
    pub open spec fn wf(&self) -> bool {
        self.selected < self.labels@.len()
    }

    pub open spec fn label_spec(&self) -> Seq<char> {
        self.labels@[self.selected as int]@
    }

    /// The option `delta` steps away, wrapping around.
    pub open spec fn stepped_index(&self, delta: int) -> int {
        (self.selected + delta) % (self.labels@.len() as int)
    }

    /// Display name of the selected option.
    pub fn label(&self) -> (l: String)
        requires
            self.wf(),
        ensures
            l == self.labels@[self.selected as int],
            l@ == self.label_spec(),
    {
        copy_string(&self.labels[self.selected])
    }

    /// Moves the selection `delta` steps, wrapping around.
    pub fn step(&mut self, delta: isize)
        requires
            old(self).wf(),
        ensures
            *final(self) == (PolicyChoice { selected: old(self).stepped_index(delta as int) as usize, ..*old(self) }),
            final(self).wf(),
    {
        self.selected = wrap_index(self.selected, delta, self.labels.len());
    }
}

/// The scope the pane edits: the focused scope of a branched project, kept
/// within its scope list; scope 0 otherwise.
pub open spec fn active_scope_index_spec(project: ProjectSettingsSource, focused_scope: int) -> int {
    if project.branched {
        let last = if project.scope_names@.len() > 0 { project.scope_names@.len() - 1 } else { 0 };
        if focused_scope < last { focused_scope } else { last }
    } else {
        0
    }
}

pub fn active_scope_index(project: &ProjectSettingsSource, focused_scope: usize) -> (i: usize)
    ensures
        i == active_scope_index_spec(*project, focused_scope as int),
{
    if project.branched {
        let last = if project.scope_names.len() > 0 { project.scope_names.len() - 1 } else { 0 };
        if focused_scope < last { focused_scope } else { last }
    } else {
        0
    }
}

/// The heading name of the scope being edited.
pub open spec fn active_scope_name_spec(project: ProjectSettingsSource, scope_index: int) -> Seq<char> {
    if project.branched {
        if 0 <= scope_index < project.scope_names@.len() {
            project.scope_names@[scope_index]@
        } else {
            "Selected scope"@
        }
    } else {
        project.project_name@
    }
}

pub fn active_scope_name(project: &ProjectSettingsSource, scope_index: usize) -> (name: String)
    ensures
        name@ == active_scope_name_spec(*project, scope_index as int),
{
    if project.branched {
        if scope_index < project.scope_names.len() {
            copy_string(&project.scope_names[scope_index])
        } else {
            String::from_str("Selected scope")
        }
    } else {
        copy_string(&project.project_name)
    }
}

/// The kind of scope being edited, for the Distro heading.
pub open spec fn active_scope_kind_spec(project: ProjectSettingsSource, scope_index: int) -> Seq<char> {
    if project.branched {
        if 0 <= scope_index < project.scope_kind_names@.len() {
            project.scope_kind_names@[scope_index]@
        } else {
            "Scope"@
        }
    } else {
        "Project"@
    }
}

pub fn active_scope_kind(project: &ProjectSettingsSource, scope_index: usize) -> (kind: String)
    ensures
        kind@ == active_scope_kind_spec(*project, scope_index as int),
{
    if project.branched {
        if scope_index < project.scope_kind_names.len() {
            copy_string(&project.scope_kind_names[scope_index])
        } else {
            String::from_str("Scope")
        }
    } else {
        String::from_str("Project")
    }
}

/// The tabs the pane offers: General, Git (repo projects only), Changelogs,
/// Distro, and RLS-QD when release-now is enabled.
pub open spec fn tab_strip_spec(requires_repo: bool, release_now_enabled: bool) -> Seq<ProjectSettingsTab> {
    seq![ProjectSettingsTab::General] + (if requires_repo { seq![ProjectSettingsTab::Git] } else { seq![] })
        + seq![ProjectSettingsTab::Changelogs, ProjectSettingsTab::Distro]
        + (if release_now_enabled { seq![ProjectSettingsTab::RlsQd] } else { seq![] })
}

pub fn project_settings_tab_strip(project: &ProjectSettingsSource, release_now_enabled: bool) -> (tabs: Vec<ProjectSettingsTab>)
    ensures
        tabs@ == tab_strip_spec(project.requires_repo, release_now_enabled),
{
    let mut tabs = vec![ProjectSettingsTab::General];
    if project.requires_repo {
        tabs.push(ProjectSettingsTab::Git);
    }
    tabs.push(ProjectSettingsTab::Changelogs);
    tabs.push(ProjectSettingsTab::Distro);
    if release_now_enabled {
        tabs.push(ProjectSettingsTab::RlsQd);
    }
    assert(tabs@ =~= tab_strip_spec(project.requires_repo, release_now_enabled));
    tabs
}

fn tabs_contain(tabs: &Vec<ProjectSettingsTab>, tab: ProjectSettingsTab) -> (r: bool)
    ensures
        r == tabs@.contains(tab),
{
    let mut i: usize = 0;
    while i < tabs.len()
        invariant
            i <= tabs.len(),
            forall|j: int| 0 <= j < i ==> tabs@[j] != tab,
        decreases tabs.len() - i,
    {
        if tabs[i] == tab {
            return true;
        }
        i = i + 1;
    }
    false
}

pub open spec fn in_tabs(tabs: Seq<ProjectSettingsTab>) -> spec_fn(ProjectSettingsTab) -> bool {
    |t: ProjectSettingsTab| tabs.contains(t)
}

pub open spec fn not_in_tabs(tabs: Seq<ProjectSettingsTab>) -> spec_fn(ProjectSettingsTab) -> bool {
    |t: ProjectSettingsTab| !tabs.contains(t)
}

/// The saved tabs the strip still offers, in saved order, then the strip's
/// other tabs in strip order; the strip itself when nothing is saved.
pub open spec fn merged_order_spec(default: Seq<ProjectSettingsTab>, saved: Seq<ProjectSettingsTab>) -> Seq<ProjectSettingsTab> {
    if saved.len() == 0 {
        default
    } else {
        saved.filter(in_tabs(default)) + default.filter(not_in_tabs(saved))
    }
}

/// Merging a saved order never adds a tab the strip does not offer nor loses
/// one it does.
pub proof fn law_merged_order_offers_strip_tabs(
    default: Seq<ProjectSettingsTab>,
    saved: Seq<ProjectSettingsTab>,
    t: ProjectSettingsTab,
)
    ensures
        merged_order_spec(default, saved).contains(t) <==> default.contains(t),
{
    if saved.len() > 0 {
        let a = saved.filter(in_tabs(default));
        let b = default.filter(not_in_tabs(saved));
        let order = a + b;
        if order.contains(t) {
            let j = choose|j: int| 0 <= j < order.len() && order[j] == t;
            if j < a.len() {
                saved.lemma_filter_pred(in_tabs(default), j);
                assert(in_tabs(default)(a[j]));
            } else {
                default.lemma_filter_pred(not_in_tabs(saved), j - a.len());
                assert(b[j - a.len()] == t);
                default.lemma_filter_contains_rev(not_in_tabs(saved), t);
            }
        }
        if default.contains(t) {
            if saved.contains(t) {
                let i = choose|i: int| 0 <= i < saved.len() && saved[i] == t;
                saved.lemma_filter_contains(in_tabs(default), i);
                let k = choose|k: int| 0 <= k < a.len() && a[k] == t;
                assert(order[k] == t);
            } else {
                let i = choose|i: int| 0 <= i < default.len() && default[i] == t;
                default.lemma_filter_contains(not_in_tabs(saved), i);
                let k = choose|k: int| 0 <= k < b.len() && b[k] == t;
                assert(order[a.len() + k] == t);
            }
        }
    }
}

/// A saved tab order merged with the default strip: the saved tabs that the
/// strip still offers, in saved order, then the strip's other tabs in strip order.
pub fn merge_project_settings_tab_order(
    default: &Vec<ProjectSettingsTab>,
    saved: &Vec<ProjectSettingsTab>,
) -> (order: Vec<ProjectSettingsTab>)
    ensures
        order@ == merged_order_spec(default@, saved@),
{
    if saved.len() == 0 {
        return default.clone();
    }
    let mut order: Vec<ProjectSettingsTab> = Vec::new();
    let mut i: usize = 0;
    while i < saved.len()
        invariant
            i <= saved.len(),
            order@ == saved@.take(i as int).filter(in_tabs(default@)),
        decreases saved.len() - i,
    {
        proof {
            reveal_with_fuel(Seq::<_>::filter, 1);
            assert(saved@.take(i + 1).drop_last() =~= saved@.take(i as int));
        }
        let ghost t = saved@.take(i + 1);
        assert(t.last() == saved@[i as int]);
        if tabs_contain(default, saved[i]) {
            order.push(saved[i]);
        }
        proof {
            reveal_with_fuel(Seq::<_>::filter, 1);
            assert(t.filter(in_tabs(default@)) == (if in_tabs(default@)(t.last()) { t.drop_last().filter(in_tabs(default@)).push(t.last()) } else { t.drop_last().filter(in_tabs(default@)) }));
        }
        i = i + 1;
    }
    assert(saved@.take(saved.len() as int) =~= saved@);
    let ghost first = order@;
    let mut k: usize = 0;
    while k < default.len()
        invariant
            k <= default.len(),
            first == saved@.filter(in_tabs(default@)),
            order@ == first + default@.take(k as int).filter(not_in_tabs(saved@)),
        decreases default.len() - k,
    {
        proof {
            reveal_with_fuel(Seq::<_>::filter, 1);
            assert(default@.take(k + 1).drop_last() =~= default@.take(k as int));
        }
        let ghost t = default@.take(k + 1);
        assert(t.last() == default@[k as int]);
        if !tabs_contain(saved, default[k]) {
            order.push(default[k]);
        }
        proof {
            reveal_with_fuel(Seq::<_>::filter, 1);
            assert(t.filter(not_in_tabs(saved@)) == (if not_in_tabs(saved@)(t.last()) { t.drop_last().filter(not_in_tabs(saved@)).push(t.last()) } else { t.drop_last().filter(not_in_tabs(saved@)) }));
        }
        assert(order@ =~= first + default@.take(k + 1).filter(not_in_tabs(saved@)));
        k = k + 1;
    }
    assert(default@.take(default.len() as int) =~= default@);
    order
}

/// Only the General tab is pinned in place.
pub fn project_settings_tab_pins(strip: &Vec<ProjectSettingsTab>) -> (pins: Vec<bool>)
    ensures
        pins@.len() == strip@.len(),
        forall|i: int| 0 <= i < strip@.len() ==> pins@[i] == (strip@[i] == ProjectSettingsTab::General),
{
    let mut pins: Vec<bool> = Vec::new();
    let mut i: usize = 0;
    while i < strip.len()
        invariant
            i <= strip.len(),
            pins@.len() == i,
            forall|j: int| 0 <= j < i ==> pins@[j] == (strip@[j] == ProjectSettingsTab::General),
        decreases strip.len() - i,
    {
        pins.push(strip[i] == ProjectSettingsTab::General);
        i = i + 1;
    }
    pins
}

/// What the tab strip is drawn from: the tabs in their (merged) order, their
/// names, which are pinned, and where the current tab sits (0 when absent).
pub fn project_settings_tab_nav_pack(
    project: &ProjectSettingsSource,
    saved_order: &Vec<ProjectSettingsTab>,
    current: ProjectSettingsTab,
) -> (r: (Vec<ProjectSettingsTab>, Vec<&'static str>, Vec<bool>, usize))
    ensures
        r.0@ == merged_order_spec(tab_strip_spec(project.requires_repo, project.release_now_enabled), saved_order@),
        r.1@.len() == r.0@.len(),
        forall|i: int| 0 <= i < r.0@.len() ==> (#[trigger] r.1@[i])@ == tab_label_spec(r.0@[i]),
        r.2@.len() == r.0@.len(),
        forall|i: int| 0 <= i < r.0@.len() ==> #[trigger] r.2@[i] == (r.0@[i] == ProjectSettingsTab::General),
        r.3 == index_or_zero(r.0@, current),
{
    let default_strip = project_settings_tab_strip(project, project.release_now_enabled);
    let strip = merge_project_settings_tab_order(&default_strip, saved_order);
    let mut labels: Vec<&'static str> = Vec::new();
    let mut i: usize = 0;
    while i < strip.len()
        invariant
            i <= strip@.len(),
            labels@.len() == i,
            forall|j: int| 0 <= j < i ==> (#[trigger] labels@[j])@ == tab_label_spec(strip@[j]),
        decreases strip.len() - i,
    {
        labels.push(project_settings_tab_label(strip[i]));
        i = i + 1;
    }
    let pinned = project_settings_tab_pins(&strip);
    let active_index = position_of_tab(&strip, current);
    (strip, labels, pinned, active_index)
}

/// The first index of `x` in `s`, or 0 when absent.
pub open spec fn index_or_zero<T>(s: Seq<T>, x: T) -> int {
    if s.contains(x) {
        choose|i: int| 0 <= i < s.len() && s[i] == x && forall|j: int| 0 <= j < i ==> #[trigger] s[j] != x
    } else {
        0
    }
}

proof fn lemma_index_or_zero<T>(s: Seq<T>, x: T, i: int)
    requires
        0 <= i <= s.len(),
        forall|j: int| 0 <= j < i ==> #[trigger] s[j] != x,
        i < s.len() ==> s[i] == x,
        i == s.len() ==> !s.contains(x),
    ensures
        index_or_zero(s, x) == (if i < s.len() { i } else { 0 }),
{
    if i < s.len() {
        assert(s.contains(x));
        let k = index_or_zero(s, x);
        assert(exists|m: int| 0 <= m < s.len() && s[m] == x && forall|j: int| 0 <= j < m ==> #[trigger] s[j] != x);
        assert(0 <= k < s.len() && s[k] == x && forall|j: int| 0 <= j < k ==> #[trigger] s[j] != x);
        if k < i {
            assert(s[k] != x);
        } else if k > i {
            assert(s[i] != x);
        }
    }
}

fn position_of_tab(s: &Vec<ProjectSettingsTab>, x: ProjectSettingsTab) -> (r: usize)
    ensures
        r == index_or_zero(s@, x),
{
    let mut i: usize = 0;
    while i < s.len()
        invariant
            i <= s.len(),
            forall|j: int| 0 <= j < i ==> #[trigger] s@[j] != x,
        decreases s.len() - i,
    {
        if s[i] == x {
            proof {
                lemma_index_or_zero(s@, x, i as int);
            }
            return i;
        }
        i = i + 1;
    }
    proof {
        lemma_index_or_zero(s@, x, i as int);
    }
    0
}

fn position_of_focus(s: &Vec<ProjectSettingsFocus>, x: ProjectSettingsFocus) -> (r: usize)
    ensures
        r == index_or_zero(s@, x),
        s@.len() > 0 ==> r < s@.len(),
{
    let mut i: usize = 0;
    while i < s.len()
        invariant
            i <= s.len(),
            forall|j: int| 0 <= j < i ==> #[trigger] s@[j] != x,
        decreases s.len() - i,
    {
        if s[i] == x {
            proof {
                lemma_index_or_zero(s@, x, i as int);
            }
            return i;
        }
        i = i + 1;
    }
    proof {
        lemma_index_or_zero(s@, x, i as int);
    }
    0
}

impl ProjectSettingsTab {
    /// The tab `delta` steps away in the strip, wrapping around; a tab not in
    /// the strip counts as the first.
    pub fn step(self, delta: isize, project: &ProjectSettingsSource, release_now_enabled: bool) -> (t: Self)
        ensures
            ({
                let tabs = tab_strip_spec(project.requires_repo, release_now_enabled);
                t == tabs[(index_or_zero(tabs, self) + delta) % (tabs.len() as int)]
            }),
    {
        let tabs = project_settings_tab_strip(project, release_now_enabled);
        let index = position_of_tab(&tabs, self);
        tabs[wrap_index(index, delta, tabs.len())]
    }
}

/// The name on a tab.
pub open spec fn tab_label_spec(tab: ProjectSettingsTab) -> Seq<char> {
    match tab {
        ProjectSettingsTab::General => "General"@,
        ProjectSettingsTab::Git => "Git"@,
        ProjectSettingsTab::Changelogs => "Changelogs"@,
        ProjectSettingsTab::Distro => "Distro"@,
        ProjectSettingsTab::RlsQd => "RLS-QD"@,
    }
}

pub fn project_settings_tab_label(tab: ProjectSettingsTab) -> (l: &'static str)
    ensures
        l@ == tab_label_spec(tab),
{
    match tab {
        ProjectSettingsTab::General => "General",
        ProjectSettingsTab::Git => "Git",
        ProjectSettingsTab::Changelogs => "Changelogs",
        ProjectSettingsTab::Distro => "Distro",
        ProjectSettingsTab::RlsQd => "RLS-QD",
    }
}

pub open spec fn inject_depth_of(focus: ProjectSettingsFocus) -> Option<ReadmeInjectDepth> {
    match focus {
        ProjectSettingsFocus::ReadmeInjectDepthCurrentOnly => Some(ReadmeInjectDepth::CurrentOnly),
        ProjectSettingsFocus::ReadmeInjectDepthLast3 => Some(ReadmeInjectDepth::Last3),
        ProjectSettingsFocus::ReadmeInjectDepthLast5 => Some(ReadmeInjectDepth::Last5),
        ProjectSettingsFocus::ReadmeInjectDepthLast10 => Some(ReadmeInjectDepth::Last10),
        _ => None,
    }
}

pub open spec fn inject_depth_focus(depth: ReadmeInjectDepth) -> ProjectSettingsFocus {
    match depth {
        ReadmeInjectDepth::CurrentOnly => ProjectSettingsFocus::ReadmeInjectDepthCurrentOnly,
        ReadmeInjectDepth::Last3 => ProjectSettingsFocus::ReadmeInjectDepthLast3,
        ReadmeInjectDepth::Last5 => ProjectSettingsFocus::ReadmeInjectDepthLast5,
        ReadmeInjectDepth::Last10 => ProjectSettingsFocus::ReadmeInjectDepthLast10,
    }
}

pub fn readme_inject_depth_from_focus(focus: ProjectSettingsFocus) -> (d: Option<ReadmeInjectDepth>)
    ensures
        d == inject_depth_of(focus),
{
    match focus {
        ProjectSettingsFocus::ReadmeInjectDepthCurrentOnly => Some(ReadmeInjectDepth::CurrentOnly),
        ProjectSettingsFocus::ReadmeInjectDepthLast3 => Some(ReadmeInjectDepth::Last3),
        ProjectSettingsFocus::ReadmeInjectDepthLast5 => Some(ReadmeInjectDepth::Last5),
        ProjectSettingsFocus::ReadmeInjectDepthLast10 => Some(ReadmeInjectDepth::Last10),
        _ => None,
    }
}

pub fn focus_for_readme_inject_depth(depth: ReadmeInjectDepth) -> (f: ProjectSettingsFocus)
    ensures
        f == inject_depth_focus(depth),
{
    match depth {
        ReadmeInjectDepth::CurrentOnly => ProjectSettingsFocus::ReadmeInjectDepthCurrentOnly,
        ReadmeInjectDepth::Last3 => ProjectSettingsFocus::ReadmeInjectDepthLast3,
        ReadmeInjectDepth::Last5 => ProjectSettingsFocus::ReadmeInjectDepthLast5,
        ReadmeInjectDepth::Last10 => ProjectSettingsFocus::ReadmeInjectDepthLast10,
    }
}

pub fn is_readme_inject_depth_field(field: ProjectSettingsFocus) -> (r: bool)
    ensures
        r == inject_depth_of(field) is Some,
{
    readme_inject_depth_from_focus(field).is_some()
}

/// Depth and focus correspond one to one.
pub proof fn law_inject_depth_round_trip(depth: ReadmeInjectDepth, focus: ProjectSettingsFocus)
    ensures
        inject_depth_of(inject_depth_focus(depth)) == Some(depth),
        inject_depth_of(focus) matches Some(d) ==> inject_depth_focus(d) == focus,
{
}

pub open spec fn is_checkbox(field: ProjectSettingsFocus) -> bool {
    match field {
        ProjectSettingsFocus::ComfyGitFlowEnabled
        | ProjectSettingsFocus::CustomMainBranchEnabled
        | ProjectSettingsFocus::ChangelogEnabled
        | ProjectSettingsFocus::ChangelogHidePrMessages
        | ProjectSettingsFocus::ChangelogHideBumpMessages
        | ProjectSettingsFocus::ChangelogWrapDetailedIfTopPicks
        | ProjectSettingsFocus::ChangelogMiniCommitHashes
        | ProjectSettingsFocus::ChangelogMirrorSummaryToRootChangelog
        | ProjectSettingsFocus::ReadmeInjectionEnabled
        | ProjectSettingsFocus::ReadmeInjectOnlyTopPicks
        | ProjectSettingsFocus::AdvancedAliasEnabled
        | ProjectSettingsFocus::ReleaseNowEnabled
        | ProjectSettingsFocus::QuickDownloadsEnabled => true,
        _ => false,
    }
}

pub fn is_checkbox_field(field: ProjectSettingsFocus) -> (r: bool)
    ensures
        r == is_checkbox(field),
{
    match field {
        ProjectSettingsFocus::ComfyGitFlowEnabled
        | ProjectSettingsFocus::CustomMainBranchEnabled
        | ProjectSettingsFocus::ChangelogEnabled
        | ProjectSettingsFocus::ChangelogHidePrMessages
        | ProjectSettingsFocus::ChangelogHideBumpMessages
        | ProjectSettingsFocus::ChangelogWrapDetailedIfTopPicks
        | ProjectSettingsFocus::ChangelogMiniCommitHashes
        | ProjectSettingsFocus::ChangelogMirrorSummaryToRootChangelog
        | ProjectSettingsFocus::ReadmeInjectionEnabled
        | ProjectSettingsFocus::ReadmeInjectOnlyTopPicks
        | ProjectSettingsFocus::AdvancedAliasEnabled
        | ProjectSettingsFocus::ReleaseNowEnabled
        | ProjectSettingsFocus::QuickDownloadsEnabled => true,
        _ => false,
    }
}

/// The text next to a checkbox (empty for fields that are not checkboxes).
pub fn checkbox_label(field: ProjectSettingsFocus) -> (l: &'static str)
    ensures
        l@ == match field {
            ProjectSettingsFocus::ComfyGitFlowEnabled => "This project follows ComfyGitFlow guides & rules."@,
            ProjectSettingsFocus::CustomMainBranchEnabled => "This repo has a custom named main branch."@,
            ProjectSettingsFocus::ChangelogEnabled => "Changelog Generation"@,
            ProjectSettingsFocus::ChangelogHidePrMessages => "Hide PR messages"@,
            ProjectSettingsFocus::ChangelogHideBumpMessages => "Hide bump messages"@,
            ProjectSettingsFocus::ChangelogWrapDetailedIfTopPicks => "Wrap detailed changelog if TopPicks present"@,
            ProjectSettingsFocus::ChangelogMiniCommitHashes => "Mini commit hashes"@,
            ProjectSettingsFocus::ChangelogMirrorSummaryToRootChangelog => "Mirror summary changelog to repo_root/CHANGELOG.md"@,
            ProjectSettingsFocus::ReadmeInjectionEnabled => "👀 What's new README injection enabled"@,
            ProjectSettingsFocus::ReadmeInjectOnlyTopPicks => "Inject only Top Picks"@,
            ProjectSettingsFocus::ReleaseNowEnabled => "Enable Release-NOW capabilities for this project/scope"@,
            ProjectSettingsFocus::QuickDownloadsEnabled => "Quick-Downloads Enabled"@,
            ProjectSettingsFocus::AdvancedAliasEnabled => "Advanced Alias functionality"@,
            _ => ""@,
        },
{
    match field {
        ProjectSettingsFocus::ComfyGitFlowEnabled => "This project follows ComfyGitFlow guides & rules.",
        ProjectSettingsFocus::CustomMainBranchEnabled => "This repo has a custom named main branch.",
        ProjectSettingsFocus::ChangelogEnabled => "Changelog Generation",
        ProjectSettingsFocus::ChangelogHidePrMessages => "Hide PR messages",
        ProjectSettingsFocus::ChangelogHideBumpMessages => "Hide bump messages",
        ProjectSettingsFocus::ChangelogWrapDetailedIfTopPicks => "Wrap detailed changelog if TopPicks present",
        ProjectSettingsFocus::ChangelogMiniCommitHashes => "Mini commit hashes",
        ProjectSettingsFocus::ChangelogMirrorSummaryToRootChangelog => "Mirror summary changelog to repo_root/CHANGELOG.md",
        ProjectSettingsFocus::ReadmeInjectionEnabled => "👀 What's new README injection enabled",
        ProjectSettingsFocus::ReadmeInjectOnlyTopPicks => "Inject only Top Picks",
        ProjectSettingsFocus::ReleaseNowEnabled => "Enable Release-NOW capabilities for this project/scope",
        ProjectSettingsFocus::QuickDownloadsEnabled => "Quick-Downloads Enabled",
        ProjectSettingsFocus::AdvancedAliasEnabled => "Advanced Alias functionality",
        _ => "",
    }
}

/// The label column text of a form field (empty for fields without one).
pub fn field_label(field: ProjectSettingsFocus) -> (l: &'static str)
    ensures
        l@ == match field {
            ProjectSettingsFocus::CustomMainBranchName => "Custom main branch"@,
            ProjectSettingsFocus::Alias => "Alias"@,
            ProjectSettingsFocus::AliasDistPath => "Dist path"@,
            ProjectSettingsFocus::AliasUiPath => "UI path"@,
            ProjectSettingsFocus::ChangelogPath => "Changelog path"@,
            ProjectSettingsFocus::ChangelogHidePrMessages => "Hide PR messages"@,
            ProjectSettingsFocus::ChangelogHideBumpMessages => "Hide bump messages"@,
            ProjectSettingsFocus::ReleaseNowGeneral => "General"@,
            ProjectSettingsFocus::ReleaseNowWindows => "Windows"@,
            ProjectSettingsFocus::ReleaseNowLinuxArm => "Linux ARM"@,
            ProjectSettingsFocus::ReleaseNowLinuxAmd => "Linux AMD"@,
            ProjectSettingsFocus::ReleaseNowMacOs => "MacOS"@,
            ProjectSettingsFocus::QuickDownloadsPosition => "Position (\u{2190}/\u{2192})"@,
            ProjectSettingsFocus::PostMergeSourceBranch => "Policy (\u{2190}/\u{2192})"@,
            ProjectSettingsFocus::MirrorSyncAfterMerge => "Policy (\u{2190}/\u{2192})"@,
            ProjectSettingsFocus::QuickDownloadsFooter => "Footer"@,
            ProjectSettingsFocus::ReadmeInjectAtRow => "Inject at row:"@,
            ProjectSettingsFocus::ReleaseTitleTemplate => "Release title:"@,
            _ => ""@,
        },
{
    match field {
        ProjectSettingsFocus::CustomMainBranchName => "Custom main branch",
        ProjectSettingsFocus::Alias => "Alias",
        ProjectSettingsFocus::AliasDistPath => "Dist path",
        ProjectSettingsFocus::AliasUiPath => "UI path",
        ProjectSettingsFocus::ChangelogPath => "Changelog path",
        ProjectSettingsFocus::ChangelogHidePrMessages => "Hide PR messages",
        ProjectSettingsFocus::ChangelogHideBumpMessages => "Hide bump messages",
        ProjectSettingsFocus::ReleaseNowGeneral => "General",
        ProjectSettingsFocus::ReleaseNowWindows => "Windows",
        ProjectSettingsFocus::ReleaseNowLinuxArm => "Linux ARM",
        ProjectSettingsFocus::ReleaseNowLinuxAmd => "Linux AMD",
        ProjectSettingsFocus::ReleaseNowMacOs => "MacOS",
        ProjectSettingsFocus::QuickDownloadsPosition => "Position (\u{2190}/\u{2192})",
        ProjectSettingsFocus::PostMergeSourceBranch => "Policy (\u{2190}/\u{2192})",
        ProjectSettingsFocus::MirrorSyncAfterMerge => "Policy (\u{2190}/\u{2192})",
        ProjectSettingsFocus::QuickDownloadsFooter => "Footer",
        ProjectSettingsFocus::ReadmeInjectAtRow => "Inject at row:",
        ProjectSettingsFocus::ReleaseTitleTemplate => "Release title:",
        _ => "",
    }
}


/// One configured custom alias as edited in the pane.
#[derive(Clone)]
pub struct AliasCustomEntryState {
    pub name: String,
    pub path: String,
}

/// The pane's editing state for the scope it is bound to.
#[derive(Clone)]
pub struct ProjectSettingsState {
    /// `(project index, scope index)` the inputs were loaded from.
    pub binding: Option<(usize, usize)>,
    pub focus: ProjectSettingsFocus,
    pub scroll: u16,
    pub viewport_height: u16,
    /// Whether the view scrolls to keep the focused row visible.
    pub follow_focus: bool,
    pub custom_main_branch_name: String,
    pub alias: String,
    pub advanced_alias_enabled: bool,
    pub alias_dist_path: String,
    pub alias_ui_path: String,
    pub alias_custom: Vec<AliasCustomEntryState>,
    pub alias_custom_draft_active: bool,
    pub alias_custom_draft_name: String,
    pub changelog_path: String,
    pub changelog_hide_pr_messages: bool,
    pub changelog_hide_bump_messages: bool,
    pub changelog_mini_commit_hashes: bool,
    pub changelog_mirror_summary_to_root_changelog: bool,
    pub changelog_wrap_detailed_if_top_picks: bool,
    pub release_now_general: String,
    pub release_now_windows: String,
    pub release_now_linux_arm: String,
    pub release_now_linux_amd: String,
    pub release_now_macos: String,
    pub quick_downloads_position: String,
    pub post_merge_source_branch: String,
    pub mirror_sync_after_merge: String,
    pub quick_downloads_footer: String,
    pub readme_inject_at_row: String,
    pub release_title_template: String,
}

/// Alias fields shown under General for the current alias state.
pub open spec fn alias_fields_spec(supports: bool, enabled: bool, custom_count: nat, draft_active: bool) -> Seq<ProjectSettingsFocus> {
    if !supports {
        seq![]
    } else if !enabled {
        seq![ProjectSettingsFocus::AdvancedAliasEnabled]
    } else {
        seq![
            ProjectSettingsFocus::AdvancedAliasEnabled,
            ProjectSettingsFocus::AliasDistPath,
            ProjectSettingsFocus::AliasUiPath,
        ] + Seq::new(
            2 * custom_count,
            |k: int|
                if k % 2 == 0 {
                    ProjectSettingsFocus::AliasCustomPath((k / 2) as u16)
                } else {
                    ProjectSettingsFocus::AliasCustomDelete((k / 2) as u16)
                },
        ) + (if draft_active {
            seq![ProjectSettingsFocus::AliasCustomDraftName, ProjectSettingsFocus::AliasCustomDraftConfirm]
        } else {
            seq![]
        }) + seq![ProjectSettingsFocus::AliasCustomAdd]
    }
}

/// The Git tab's fields.
pub open spec fn git_fields_spec(dual_forge: bool) -> Seq<ProjectSettingsFocus> {
    seq![ProjectSettingsFocus::PostMergeSourceBranch] + (if dual_forge {
        seq![ProjectSettingsFocus::MirrorSyncAfterMerge]
    } else {
        seq![]
    })
}

/// The Changelogs tab's fields.
pub open spec fn changelog_fields_spec(changelog_enabled: bool, readme_injection_enabled: bool) -> Seq<ProjectSettingsFocus> {
    if !changelog_enabled {
        seq![ProjectSettingsFocus::ChangelogEnabled]
    } else {
        seq![
            ProjectSettingsFocus::ChangelogEnabled,
            ProjectSettingsFocus::ChangelogPath,
            ProjectSettingsFocus::ChangelogHidePrMessages,
            ProjectSettingsFocus::ChangelogHideBumpMessages,
            ProjectSettingsFocus::ChangelogWrapDetailedIfTopPicks,
            ProjectSettingsFocus::ChangelogMiniCommitHashes,
            ProjectSettingsFocus::ChangelogMirrorSummaryToRootChangelog,
            ProjectSettingsFocus::ReadmeInjectionEnabled,
        ] + (if readme_injection_enabled {
            seq![
                ProjectSettingsFocus::ReadmeInjectOnlyTopPicks,
                ProjectSettingsFocus::ReadmeInjectAtRow,
                ProjectSettingsFocus::ReadmeInjectDepthCurrentOnly,
                ProjectSettingsFocus::ReadmeInjectDepthLast3,
                ProjectSettingsFocus::ReadmeInjectDepthLast5,
                ProjectSettingsFocus::ReadmeInjectDepthLast10,
            ]
        } else {
            seq![]
        })
    }
}

/// The fields a tab shows, in focus order.
pub open spec fn visible_fields_spec(
    tab: ProjectSettingsTab,
    p: ProjectSettingsSource,
    s: ProjectSettingsState,
) -> Seq<ProjectSettingsFocus> {
    match tab {
        ProjectSettingsTab::General => seq![ProjectSettingsFocus::ComfyGitFlowEnabled] + (if p.requires_repo {
            seq![ProjectSettingsFocus::CustomMainBranchEnabled] + (if p.has_custom_main_branch {
                seq![ProjectSettingsFocus::CustomMainBranchName]
            } else {
                seq![]
            })
        } else {
            seq![]
        }) + seq![ProjectSettingsFocus::Alias] + alias_fields_spec(
            p.supports_advanced_alias,
            s.advanced_alias_enabled,
            s.alias_custom.len() as nat,
            s.alias_custom_draft_active,
        ),
        ProjectSettingsTab::Git => git_fields_spec(p.dual_forge),
        ProjectSettingsTab::Changelogs => changelog_fields_spec(p.changelog_enabled, p.readme_injection_enabled),
        ProjectSettingsTab::Distro => if p.release_now_enabled {
            seq![
                ProjectSettingsFocus::ReleaseNowEnabled,
                ProjectSettingsFocus::ReleaseNowGeneral,
                ProjectSettingsFocus::ReleaseNowWindows,
                ProjectSettingsFocus::ReleaseNowLinuxArm,
                ProjectSettingsFocus::ReleaseNowLinuxAmd,
                ProjectSettingsFocus::ReleaseNowMacOs,
                ProjectSettingsFocus::ReleaseTitleTemplate,
            ]
        } else {
            seq![ProjectSettingsFocus::ReleaseNowEnabled]
        },
        ProjectSettingsTab::RlsQd => if p.quick_downloads_enabled {
            seq![
                ProjectSettingsFocus::QuickDownloadsEnabled,
                ProjectSettingsFocus::QuickDownloadsPosition,
                ProjectSettingsFocus::QuickDownloadsFooter,
            ]
        } else {
            seq![ProjectSettingsFocus::QuickDownloadsEnabled]
        },
    }
}

/// Appends the alias fields for the current alias state.
pub fn append_alias_visible_fields(
    fields: &mut Vec<ProjectSettingsFocus>,
    project: &ProjectSettingsSource,
    scope_index: usize,
    state: &ProjectSettingsState,
)
    ensures
        final(fields)@ == old(fields)@ + alias_fields_spec(
            project.supports_advanced_alias,
            state.advanced_alias_enabled,
            state.alias_custom.len() as nat,
            state.alias_custom_draft_active,
        ),
{
    let _ = scope_index;
    let ghost start = fields@;
    if !project.supports_advanced_alias {
        assert(fields@ =~= start + seq![]);
        return;
    }
    fields.push(ProjectSettingsFocus::AdvancedAliasEnabled);
    if !state.advanced_alias_enabled {
        assert(fields@ =~= start + seq![ProjectSettingsFocus::AdvancedAliasEnabled]);
        return;
    }
    fields.push(ProjectSettingsFocus::AliasDistPath);
    fields.push(ProjectSettingsFocus::AliasUiPath);
    let ghost head = fields@;
    let ghost pairs = Seq::new(
        2 * (state.alias_custom.len() as nat),
        |k: int|
            if k % 2 == 0 {
                ProjectSettingsFocus::AliasCustomPath((k / 2) as u16)
            } else {
                ProjectSettingsFocus::AliasCustomDelete((k / 2) as u16)
            },
    );
    let mut index: usize = 0;
    while index < state.alias_custom.len()
        invariant
            index <= state.alias_custom.len(),
            pairs == Seq::new(
                2 * (state.alias_custom.len() as nat),
                |k: int|
                    if k % 2 == 0 {
                        ProjectSettingsFocus::AliasCustomPath((k / 2) as u16)
                    } else {
                        ProjectSettingsFocus::AliasCustomDelete((k / 2) as u16)
                    },
            ),
            fields@ == head + pairs.take(2 * index),
        decreases state.alias_custom.len() - index,
    {
        fields.push(ProjectSettingsFocus::AliasCustomPath(index as u16));
        fields.push(ProjectSettingsFocus::AliasCustomDelete(index as u16));
        assert(pairs[2 * index as int] == ProjectSettingsFocus::AliasCustomPath(index as u16));
        assert(pairs[2 * index + 1] == ProjectSettingsFocus::AliasCustomDelete(index as u16));
        index = index + 1;
        assert(fields@ =~= head + pairs.take(2 * index));
    }
    assert(pairs.take(2 * index) =~= pairs);
    if state.alias_custom_draft_active {
        fields.push(ProjectSettingsFocus::AliasCustomDraftName);
        fields.push(ProjectSettingsFocus::AliasCustomDraftConfirm);
    }
    fields.push(ProjectSettingsFocus::AliasCustomAdd);
    assert(fields@ =~= start + alias_fields_spec(
        project.supports_advanced_alias,
        state.advanced_alias_enabled,
        state.alias_custom.len() as nat,
        state.alias_custom_draft_active,
    ));
}

/// The Git tab's fields: the post-merge policy, and the mirror policy for
/// projects that push to two forges.
pub fn git_visible_fields(project: &ProjectSettingsSource, scope_index: usize) -> (f: Vec<ProjectSettingsFocus>)
    ensures
        f@ == git_fields_spec(project.dual_forge),
{
    let _ = scope_index;
    let mut fields = vec![ProjectSettingsFocus::PostMergeSourceBranch];
    if project.dual_forge {
        fields.push(ProjectSettingsFocus::MirrorSyncAfterMerge);
    }
    assert(fields@ =~= git_fields_spec(project.dual_forge));
    fields
}

/// The Changelogs tab's fields.
pub fn changelog_visible_fields(project: &ProjectSettingsSource, scope_index: usize) -> (f: Vec<ProjectSettingsFocus>)
    ensures
        f@ == changelog_fields_spec(project.changelog_enabled, project.readme_injection_enabled),
{
    let _ = scope_index;
    let mut fields = vec![ProjectSettingsFocus::ChangelogEnabled];
    if project.changelog_enabled {
        fields.push(ProjectSettingsFocus::ChangelogPath);
        fields.push(ProjectSettingsFocus::ChangelogHidePrMessages);
        fields.push(ProjectSettingsFocus::ChangelogHideBumpMessages);
        fields.push(ProjectSettingsFocus::ChangelogWrapDetailedIfTopPicks);
        fields.push(ProjectSettingsFocus::ChangelogMiniCommitHashes);
        fields.push(ProjectSettingsFocus::ChangelogMirrorSummaryToRootChangelog);
        fields.push(ProjectSettingsFocus::ReadmeInjectionEnabled);
        if project.readme_injection_enabled {
            fields.push(ProjectSettingsFocus::ReadmeInjectOnlyTopPicks);
            fields.push(ProjectSettingsFocus::ReadmeInjectAtRow);
            fields.push(ProjectSettingsFocus::ReadmeInjectDepthCurrentOnly);
            fields.push(ProjectSettingsFocus::ReadmeInjectDepthLast3);
            fields.push(ProjectSettingsFocus::ReadmeInjectDepthLast5);
            fields.push(ProjectSettingsFocus::ReadmeInjectDepthLast10);
        }
    }
    assert(fields@ =~= changelog_fields_spec(project.changelog_enabled, project.readme_injection_enabled));
    fields
}

pub open spec fn accepts_text(f: ProjectSettingsFocus) -> bool {
    match f {
        ProjectSettingsFocus::CustomMainBranchName | ProjectSettingsFocus::Alias
        | ProjectSettingsFocus::AliasDistPath | ProjectSettingsFocus::AliasUiPath
        | ProjectSettingsFocus::AliasCustomPath(_) | ProjectSettingsFocus::AliasCustomDraftName
        | ProjectSettingsFocus::ChangelogPath | ProjectSettingsFocus::ReleaseNowGeneral
        | ProjectSettingsFocus::ReleaseNowWindows | ProjectSettingsFocus::ReleaseNowLinuxArm
        | ProjectSettingsFocus::ReleaseNowLinuxAmd | ProjectSettingsFocus::ReleaseNowMacOs
        | ProjectSettingsFocus::QuickDownloadsFooter | ProjectSettingsFocus::ReadmeInjectAtRow
        | ProjectSettingsFocus::ReleaseTitleTemplate => true,
        _ => false,
    }
}

fn contains_focus(fields: &Vec<ProjectSettingsFocus>, f: ProjectSettingsFocus) -> (r: bool)
    ensures
        r == fields@.contains(f),
{
    let mut i: usize = 0;
    while i < fields.len()
        invariant
            i <= fields.len(),
            forall|j: int| 0 <= j < i ==> fields@[j] != f,
        decreases fields.len() - i,
    {
        if fields[i] == f {
            return true;
        }
        i = i + 1;
    }
    false
}

/// The focus after `focus_next`: the following visible field, wrapping around.
pub open spec fn next_focus_spec(fields: Seq<ProjectSettingsFocus>, f: ProjectSettingsFocus) -> ProjectSettingsFocus {
    fields[(index_or_zero(fields, f) + 1) % (fields.len() as int)]
}

/// The focus after `focus_previous`: the preceding visible field, wrapping around.
pub open spec fn previous_focus_spec(fields: Seq<ProjectSettingsFocus>, f: ProjectSettingsFocus) -> ProjectSettingsFocus {
    fields[(index_or_zero(fields, f) + fields.len() - 1) % (fields.len() as int)]
}

/// The field `delta` steps from `f` in `fields`, wrapping around; a focus not
/// in the list counts as the first field.
fn step_focus(fields: &Vec<ProjectSettingsFocus>, f: ProjectSettingsFocus, delta: isize) -> (r: ProjectSettingsFocus)
    requires
        fields@.len() > 0,
    ensures
        r == fields@[(index_or_zero(fields@, f) + delta) % (fields@.len() as int)],
{
    let index = position_of_focus(fields, f);
    fields[wrap_index(index, delta, fields.len())]
}

/// The state with its focus moved to the tab's first field when it was on a
/// field the tab does not show.
pub open spec fn focus_made_visible(tab: ProjectSettingsTab, project: ProjectSettingsSource, state: ProjectSettingsState) -> ProjectSettingsState {
    let fields = visible_fields_spec(tab, project, state);
    if fields.contains(state.focus) {
        state
    } else {
        ProjectSettingsState { focus: fields[0], follow_focus: true, ..state }
    }
}

impl ProjectSettingsState {
    /// A fresh, unbound state: every text empty except the default changelog path.
    pub fn new() -> (s: Self)
        ensures
            s.binding is None,
            s.focus == ProjectSettingsFocus::ComfyGitFlowEnabled,
            s.scroll == 0,
            s.viewport_height == 0,
            s.follow_focus,
            s.changelog_path@ == DEFAULT_CHANGELOG_PATH@,
            s.custom_main_branch_name@.len() == 0,
            s.alias@.len() == 0,
            !s.advanced_alias_enabled,
            s.alias_custom@.len() == 0,
            !s.alias_custom_draft_active,
    {
        Self {
            binding: None,
            focus: ProjectSettingsFocus::ComfyGitFlowEnabled,
            scroll: 0,
            viewport_height: 0,
            follow_focus: true,
            custom_main_branch_name: String::new(),
            alias: String::new(),
            advanced_alias_enabled: false,
            alias_dist_path: String::new(),
            alias_ui_path: String::new(),
            alias_custom: Vec::new(),
            alias_custom_draft_active: false,
            alias_custom_draft_name: String::new(),
            changelog_path: String::from_str(DEFAULT_CHANGELOG_PATH),
            changelog_hide_pr_messages: false,
            changelog_hide_bump_messages: false,
            changelog_mini_commit_hashes: false,
            changelog_mirror_summary_to_root_changelog: false,
            changelog_wrap_detailed_if_top_picks: false,
            release_now_general: String::new(),
            release_now_windows: String::new(),
            release_now_linux_arm: String::new(),
            release_now_linux_amd: String::new(),
            release_now_macos: String::new(),
            quick_downloads_position: String::new(),
            post_merge_source_branch: String::new(),
            mirror_sync_after_merge: String::new(),
            quick_downloads_footer: String::new(),
            readme_inject_at_row: String::new(),
            release_title_template: String::new(),
        }
    }

    /// The fields `tab` shows, in focus order.
    pub fn visible_fields(&self, tab: ProjectSettingsTab, project: &ProjectSettingsSource, scope_index: usize) -> (f: Vec<ProjectSettingsFocus>)
        ensures
            f@ == visible_fields_spec(tab, *project, *self),
            f@.len() > 0,
    {
        match tab {
            ProjectSettingsTab::General => {
                let mut fields = vec![ProjectSettingsFocus::ComfyGitFlowEnabled];
                if project.requires_repo {
                    fields.push(ProjectSettingsFocus::CustomMainBranchEnabled);
                    if project.has_custom_main_branch {
                        fields.push(ProjectSettingsFocus::CustomMainBranchName);
                    }
                }
                fields.push(ProjectSettingsFocus::Alias);
                let ghost head = fields@;
                append_alias_visible_fields(&mut fields, project, scope_index, self);
                assert(fields@ =~= visible_fields_spec(tab, *project, *self));
                fields
            },
            ProjectSettingsTab::Git => git_visible_fields(project, scope_index),
            ProjectSettingsTab::Changelogs => changelog_visible_fields(project, scope_index),
            ProjectSettingsTab::Distro => {
                let mut fields = vec![ProjectSettingsFocus::ReleaseNowEnabled];
                if project.release_now_enabled {
                    fields.push(ProjectSettingsFocus::ReleaseNowGeneral);
                    fields.push(ProjectSettingsFocus::ReleaseNowWindows);
                    fields.push(ProjectSettingsFocus::ReleaseNowLinuxArm);
                    fields.push(ProjectSettingsFocus::ReleaseNowLinuxAmd);
                    fields.push(ProjectSettingsFocus::ReleaseNowMacOs);
                    fields.push(ProjectSettingsFocus::ReleaseTitleTemplate);
                }
                assert(fields@ =~= visible_fields_spec(tab, *project, *self));
                fields
            },
            ProjectSettingsTab::RlsQd => {
                let mut fields = vec![ProjectSettingsFocus::QuickDownloadsEnabled];
                if project.quick_downloads_enabled {
                    fields.push(ProjectSettingsFocus::QuickDownloadsPosition);
                    fields.push(ProjectSettingsFocus::QuickDownloadsFooter);
                }
                assert(fields@ =~= visible_fields_spec(tab, *project, *self));
                fields
            },
        }
    }

    /// Moves the focus onto the tab's first field when it is not on a visible one.
    pub fn ensure_focus_visible(&mut self, tab: ProjectSettingsTab, project: &ProjectSettingsSource, scope_index: usize)
        ensures
            *final(self) == focus_made_visible(tab, *project, *old(self)),
    {
        let fields = self.visible_fields(tab, project, scope_index);
        if !contains_focus(&fields, self.focus) {
            self.focus = fields[0];
            self.follow_focus = true;
        }
    }

    /// Focuses the next visible field (wrapping) and follows it.
    pub fn focus_next(&mut self, tab: ProjectSettingsTab, project: &ProjectSettingsSource, scope_index: usize)
        ensures
            final(self).focus == next_focus_spec(visible_fields_spec(tab, *project, *old(self)), old(self).focus),
            *final(self) == (ProjectSettingsState { focus: final(self).focus, follow_focus: true, ..*old(self) }),
    {
        let fields = self.visible_fields(tab, project, scope_index);
        let next = step_focus(&fields, self.focus, 1);
        self.focus = next;
        self.follow_focus = true;
    }

    /// Focuses the previous visible field (wrapping) and follows it.
    pub fn focus_previous(&mut self, tab: ProjectSettingsTab, project: &ProjectSettingsSource, scope_index: usize)
        ensures
            final(self).focus == previous_focus_spec(visible_fields_spec(tab, *project, *old(self)), old(self).focus),
            *final(self) == (ProjectSettingsState { focus: final(self).focus, follow_focus: true, ..*old(self) }),
    {
        let fields = self.visible_fields(tab, project, scope_index);
        let previous = step_focus(&fields, self.focus, -1);
        proof {
            let len = fields@.len() as int;
            let index = index_or_zero(fields@, self.focus);
            assert((index - 1) % len == (index + len - 1) % len) by {
                vstd::arithmetic::div_mod::lemma_mod_add_multiples_vanish(index - 1, len);
            }
        }
        self.focus = previous;
        self.follow_focus = true;
    }

    /// Whether typing goes into the focused field: it is visible and a text field.
    pub fn focus_accepts_text(&self, tab: ProjectSettingsTab, project: &ProjectSettingsSource, scope_index: usize) -> (r: bool)
        ensures
            r == (visible_fields_spec(tab, *project, *self).contains(self.focus) && accepts_text(self.focus)),
    {
        let fields = self.visible_fields(tab, project, scope_index);
        contains_focus(&fields, self.focus) && match self.focus {
            ProjectSettingsFocus::CustomMainBranchName | ProjectSettingsFocus::Alias
            | ProjectSettingsFocus::AliasDistPath | ProjectSettingsFocus::AliasUiPath
            | ProjectSettingsFocus::AliasCustomPath(_) | ProjectSettingsFocus::AliasCustomDraftName
            | ProjectSettingsFocus::ChangelogPath | ProjectSettingsFocus::ReleaseNowGeneral
            | ProjectSettingsFocus::ReleaseNowWindows | ProjectSettingsFocus::ReleaseNowLinuxArm
            | ProjectSettingsFocus::ReleaseNowLinuxAmd | ProjectSettingsFocus::ReleaseNowMacOs
            | ProjectSettingsFocus::QuickDownloadsFooter | ProjectSettingsFocus::ReadmeInjectAtRow
            | ProjectSettingsFocus::ReleaseTitleTemplate => true,
            _ => false,
        }
    }

    /// Stores a path picked in the file browser into the field it was picked for
    /// (changelog, release scripts and footer; other fields are left alone).
    pub fn set_value_from_browse(&mut self, field: ProjectSettingsFocus, value: String)
        ensures
            match field {
                ProjectSettingsFocus::ChangelogPath => *final(self) == (ProjectSettingsState { changelog_path: value, ..*old(self) }),
                ProjectSettingsFocus::ReleaseNowGeneral => *final(self) == (ProjectSettingsState { release_now_general: value, ..*old(self) }),
                ProjectSettingsFocus::ReleaseNowWindows => *final(self) == (ProjectSettingsState { release_now_windows: value, ..*old(self) }),
                ProjectSettingsFocus::ReleaseNowLinuxArm => *final(self) == (ProjectSettingsState { release_now_linux_arm: value, ..*old(self) }),
                ProjectSettingsFocus::ReleaseNowLinuxAmd => *final(self) == (ProjectSettingsState { release_now_linux_amd: value, ..*old(self) }),
                ProjectSettingsFocus::ReleaseNowMacOs => *final(self) == (ProjectSettingsState { release_now_macos: value, ..*old(self) }),
                ProjectSettingsFocus::QuickDownloadsFooter => *final(self) == (ProjectSettingsState { quick_downloads_footer: value, ..*old(self) }),
                _ => *final(self) == *old(self),
            },
    {
        match field {
            ProjectSettingsFocus::ChangelogPath => self.changelog_path = value,
            ProjectSettingsFocus::ReleaseNowGeneral => self.release_now_general = value,
            ProjectSettingsFocus::ReleaseNowWindows => self.release_now_windows = value,
            ProjectSettingsFocus::ReleaseNowLinuxArm => self.release_now_linux_arm = value,
            ProjectSettingsFocus::ReleaseNowLinuxAmd => self.release_now_linux_amd = value,
            ProjectSettingsFocus::ReleaseNowMacOs => self.release_now_macos = value,
            ProjectSettingsFocus::QuickDownloadsFooter => self.quick_downloads_footer = value,
            _ => {},
        }
    }
}

} // verus!
