//! A scope being edited in the wizard or the project editor, checked and
//! turned into a scope configuration; and the delete confirmation dialog.

use vstd::prelude::*;
use crate::dialogs::IntegrationMode;
use crate::target_keys::TargetFileClass;
use crate::text::{append_str, copy_string, trim, trimmed_string};
use crate::versions::VersionScheme;

verus! {

/// What a scope of a branched project stands for.
#[derive(Clone, Copy, Debug, PartialEq, Eq, Structural)]
pub enum BranchScopeKind {
    Branch,
    Module,
    Service,
}

/// The kind one step forward (`delta >= 0`) or back, wrapping around.
pub fn rotate_scope_kind(scope_kind: BranchScopeKind, delta: i32) -> (k: BranchScopeKind)
    ensures
        k == (if delta >= 0 {
            match scope_kind {
                BranchScopeKind::Branch => BranchScopeKind::Module,
                BranchScopeKind::Module => BranchScopeKind::Service,
                BranchScopeKind::Service => BranchScopeKind::Branch,
            }
        } else {
            match scope_kind {
                BranchScopeKind::Branch => BranchScopeKind::Service,
                BranchScopeKind::Module => BranchScopeKind::Branch,
                BranchScopeKind::Service => BranchScopeKind::Module,
            }
        }),
{
    if delta >= 0 {
        match scope_kind {
            BranchScopeKind::Branch => BranchScopeKind::Module,
            BranchScopeKind::Module => BranchScopeKind::Service,
            BranchScopeKind::Service => BranchScopeKind::Branch,
        }
    } else {
        match scope_kind {
            BranchScopeKind::Branch => BranchScopeKind::Service,
            BranchScopeKind::Module => BranchScopeKind::Branch,
            BranchScopeKind::Service => BranchScopeKind::Module,
        }
    }
}

/// Three steps of `rotate_scope_kind` in one direction come back to the start,
/// and a step back undoes a step forward.
pub proof fn law_rotate_scope_kind_cycles(kind: BranchScopeKind)
    ensures
        ({
            let fwd = |k: BranchScopeKind| match k {
                BranchScopeKind::Branch => BranchScopeKind::Module,
                BranchScopeKind::Module => BranchScopeKind::Service,
                BranchScopeKind::Service => BranchScopeKind::Branch,
            };
            let back = |k: BranchScopeKind| match k {
                BranchScopeKind::Branch => BranchScopeKind::Service,
                BranchScopeKind::Module => BranchScopeKind::Branch,
                BranchScopeKind::Service => BranchScopeKind::Module,
            };
            &&& fwd(fwd(fwd(kind))) == kind
            &&& back(fwd(kind)) == kind
            &&& fwd(back(kind)) == kind
        }),
{
}

/// One version target of a scope.
#[derive(Clone)]
pub struct TargetSpec<F> {
    pub label: String,
    pub path: String,
    pub key_path: String,
    pub format: F,
}

/// The outcome of the last read of a draft's target.
#[derive(Clone, Copy)]
pub struct TargetProbe<F> {
    pub succeeded: bool,
    /// The format the read recognised, if any.
    pub format: Option<F>,
}

/// What a draft checks and carries of an existing scope.
/// `R` stands for the scope's repository settings.
pub struct BranchSource<F, R> {
    pub name: String,
    pub label: String,
    pub scope_kind: BranchScopeKind,
    pub changelog_enabled: bool,
    pub version_scheme: VersionScheme,
    /// The repository the scope releases to; `None` for a local-only scope.
    pub repo: Option<R>,
    pub targets: Vec<TargetSpec<F>>,
}

/// A scope as the editor holds it.
pub struct ScopeDraft<F, R> {
    pub name: String,
    pub label: String,
    /// The label is kept equal to the (trimmed) name.
    pub label_follows_name: bool,
    pub changelog_enabled: bool,
    pub target_label: String,
    pub target_path: String,
    pub target_key: String,
    pub target_key_custom: bool,
    pub scope_kind: BranchScopeKind,
    pub repo: Option<R>,
    pub integration_mode: IntegrationMode,
    pub version_scheme: VersionScheme,
    pub format: F,
    pub last_probe: Option<TargetProbe<F>>,
}

/// Why a draft cannot become a scope.
#[derive(Clone, Copy, Debug, PartialEq, Eq, Structural)]
pub enum ScopeDraftError {
    EmptyName,
    EmptyTargetPath,
    EmptyTargetKey,
    NotReadYet,
}

/// The scope configuration a draft becomes.
pub struct BuiltScope<F, R> {
    pub name: String,
    pub label: String,
    pub scope_kind: BranchScopeKind,
    pub changelog_enabled: bool,
    pub version_scheme: VersionScheme,
    pub repo: Option<R>,
    pub target: TargetSpec<F>,
}

/// The error a draft's checks give, in the order they are made.
pub open spec fn draft_error<F, R>(d: ScopeDraft<F, R>, require_probe: bool, class: TargetFileClass) -> Option<ScopeDraftError> {
    if trim(d.name@).len() == 0 {
        Some(ScopeDraftError::EmptyName)
    } else if trim(d.target_path@).len() == 0 {
        Some(ScopeDraftError::EmptyTargetPath)
    } else if trim(d.target_key@).len() == 0 && class != TargetFileClass::PlainVersion {
        Some(ScopeDraftError::EmptyTargetKey)
    } else if require_probe && !(d.last_probe matches Some(p) && p.succeeded) {
        Some(ScopeDraftError::NotReadYet)
    } else {
        None
    }
}

/// The format a built scope records: the one the last read recognised, else
/// the draft's.
pub open spec fn built_format<F, R>(d: ScopeDraft<F, R>) -> F {
    match d.last_probe {
        Some(p) => match p.format {
            Some(f) => f,
            None => d.format,
        },
        None => d.format,
    }
}

impl ScopeDraftError {
    /// The message shown for the error, naming the scope where it has one.
    pub fn message(&self, scope_name: &str) -> (m: String)
        ensures
            m@ == match *self {
                ScopeDraftError::EmptyName => "scope name cannot be empty"@,
                ScopeDraftError::EmptyTargetPath => "scope '"@ + scope_name@ + "' target path cannot be empty"@,
                ScopeDraftError::EmptyTargetKey => "scope '"@ + scope_name@ + "' target key cannot be empty"@,
                ScopeDraftError::NotReadYet => "scope '"@ + scope_name@ + "' must be read successfully before saving"@,
            },
    {
        match self {
            ScopeDraftError::EmptyName => String::from_str("scope name cannot be empty"),
            ScopeDraftError::EmptyTargetPath => {
                let mut m = String::from_str("scope '");
                append_str(&mut m, scope_name);
                append_str(&mut m, "' target path cannot be empty");
                m
            },
            ScopeDraftError::EmptyTargetKey => {
                let mut m = String::from_str("scope '");
                append_str(&mut m, scope_name);
                append_str(&mut m, "' target key cannot be empty");
                m
            },
            ScopeDraftError::NotReadYet => {
                let mut m = String::from_str("scope '");
                append_str(&mut m, scope_name);
                append_str(&mut m, "' must be read successfully before saving");
                m
            },
        }
    }
}

impl<F: Copy, R: Copy> ScopeDraft<F, R> {
    /// A fresh draft named `name`: label following the name, changelog off,
    /// target labelled "Version" with an empty path and the key "version",
    /// a plain branch scope kept locally, versioned by SemVer.
    pub fn new(name: String, format: F) -> (d: Self)
        ensures
            d.name == name,
            d.label == name,
            d.label_follows_name,
            !d.changelog_enabled,
            d.target_label@ == "Version"@,
            d.target_path@.len() == 0,
            d.target_key@ == "version"@,
            !d.target_key_custom,
            d.scope_kind == BranchScopeKind::Branch,
            d.repo is None,
            d.integration_mode == IntegrationMode::LocalOnly,
            d.version_scheme == VersionScheme::SemVer,
            d.format == format,
            d.last_probe is None,
    {
        let label = name.clone();
        ScopeDraft {
            name,
            label,
            label_follows_name: true,
            changelog_enabled: false,
            target_label: String::from_str("Version"),
            target_path: String::new(),
            target_key: String::from_str("version"),
            target_key_custom: false,
            scope_kind: BranchScopeKind::Branch,
            repo: None,
            integration_mode: IntegrationMode::LocalOnly,
            version_scheme: VersionScheme::SemVer,
            format,
            last_probe: None,
        }
    }

    /// A fresh draft for an existing target; `key_is_custom` says whether the
    /// target's key is one of the presets for its file.
    pub fn from_target(name: String, target: &TargetSpec<F>, key_is_custom: bool) -> (d: Self)
        ensures
            d.name == name,
            d.label == name,
            d.label_follows_name,
            !d.changelog_enabled,
            d.target_label == target.label,
            d.target_path == target.path,
            d.target_key == target.key_path,
            d.target_key_custom == key_is_custom,
            d.scope_kind == BranchScopeKind::Branch,
            d.repo is None,
            d.integration_mode == IntegrationMode::LocalOnly,
            d.version_scheme == VersionScheme::SemVer,
            d.format == target.format,
            d.last_probe is None,
    {
        let mut scope = Self::new(name, target.format);
        scope.target_label = target.label.clone();
        scope.target_path = target.path.clone();
        scope.target_key = target.key_path.clone();
        scope.target_key_custom = key_is_custom;
        scope
    }

    /// A draft of an existing scope, from its first target; `None` when it
    /// has no target to edit. The label follows the name when it is blank or
    /// equal to the name, and a blank label shows the name.
    pub fn from_branch(branch: &BranchSource<F, R>, integration_mode: IntegrationMode, key_is_custom: bool) -> (d: Option<Self>)
        ensures
            branch.targets@.len() == 0 ==> d is None,
            branch.targets@.len() > 0 ==> (d matches Some(d) && {
                let target = branch.targets@[0];
                &&& d.name == branch.name
                &&& d.label == (if trim(branch.label@).len() == 0 { branch.name } else { branch.label })
                &&& d.label_follows_name == (trim(branch.label@).len() == 0 || branch.label@ == branch.name@)
                &&& d.changelog_enabled == branch.changelog_enabled
                &&& d.target_label == target.label
                &&& d.target_path == target.path
                &&& d.target_key == target.key_path
                &&& d.target_key_custom == key_is_custom
                &&& d.scope_kind == branch.scope_kind
                &&& d.repo == branch.repo
                &&& d.integration_mode == integration_mode
                &&& d.version_scheme == branch.version_scheme
                &&& d.format == target.format
                &&& d.last_probe is None
            }),
    {
        if branch.targets.len() == 0 {
            return None;
        }
        let target = &branch.targets[0];
        let trimmed_label = trimmed_string(branch.label.as_str());
        let label_blank = trimmed_label.as_str().unicode_len() == 0;
        let label = if label_blank { branch.name.clone() } else { branch.label.clone() };
        let follows = label_blank || branch.label == branch.name;
        Some(ScopeDraft {
            name: branch.name.clone(),
            label,
            label_follows_name: follows,
            changelog_enabled: branch.changelog_enabled,
            target_label: target.label.clone(),
            target_path: target.path.clone(),
            target_key: target.key_path.clone(),
            target_key_custom: key_is_custom,
            scope_kind: branch.scope_kind,
            repo: branch.repo,
            integration_mode,
            version_scheme: branch.version_scheme,
            format: target.format,
            last_probe: None,
        })
    }

    /// The name shown in lists: "(unnamed scope)" for a blank name, the
    /// trimmed name when the label adds nothing, else "label [name]".
    pub fn display_name(&self) -> (s: String)
        ensures
            s@ == ({
                let name = trim(self.name@);
                if name.len() == 0 {
                    "(unnamed scope)"@
                } else if self.label_follows_name || trim(self.label@).len() == 0 || self.label@ == name {
                    name
                } else {
                    self.label@ + " ["@ + name + "]"@
                }
            }),
    {
        let name = trimmed_string(self.name.as_str());
        if name.as_str().unicode_len() == 0 {
            return String::from_str("(unnamed scope)");
        }
        let label_trimmed = trimmed_string(self.label.as_str());
        if self.label_follows_name || label_trimmed.as_str().unicode_len() == 0 || self.label == name {
            return name;
        }
        let mut s = copy_string(&self.label);
        append_str(&mut s, " [");
        append_str(&mut s, name.as_str());
        append_str(&mut s, "]");
        s
    }

    /// Keeps the label equal to the trimmed name while it follows the name.
    pub fn sync_label_if_needed(&mut self)
        ensures
            old(self).label_follows_name ==> final(self).label@ == trim(old(self).name@),
            !old(self).label_follows_name ==> final(self).label == old(self).label,
            final(self).name == old(self).name,
            final(self).label_follows_name == old(self).label_follows_name,
    {
        if self.label_follows_name {
            self.label = trimmed_string(self.name.as_str());
        }
    }

    /// Checks the draft and builds its scope: name, path and key trimmed; the
    /// label the name's while it follows it or is blank. A blank key is
    /// allowed for plain version files only, and with `require_probe` the
    /// target must have been read successfully.
    pub fn build_branch(&self, require_probe: bool, class: TargetFileClass) -> (r: Result<BuiltScope<F, R>, ScopeDraftError>)
        ensures
            match draft_error(*self, require_probe, class) {
                Some(e) => r == Err::<BuiltScope<F, R>, ScopeDraftError>(e),
                None => (r matches Ok(b) && {
                    &&& b.name@ == trim(self.name@)
                    &&& (if self.label_follows_name || trim(self.label@).len() == 0 {
                        b.label@ == trim(self.name@)
                    } else {
                        b.label == self.label
                    })
                    &&& b.scope_kind == self.scope_kind
                    &&& b.repo == self.repo
                    &&& b.changelog_enabled == self.changelog_enabled
                    &&& b.version_scheme == self.version_scheme
                    &&& b.target.label == self.target_label
                    &&& b.target.path@ == trim(self.target_path@)
                    &&& b.target.key_path@ == trim(self.target_key@)
                    &&& b.target.format == built_format(*self)
                }),
            },
    {
        let name = trimmed_string(self.name.as_str());
        if name.as_str().unicode_len() == 0 {
            return Err(ScopeDraftError::EmptyName);
        }
        let target_path = trimmed_string(self.target_path.as_str());
        if target_path.as_str().unicode_len() == 0 {
            return Err(ScopeDraftError::EmptyTargetPath);
        }
        let target_key = trimmed_string(self.target_key.as_str());
        if target_key.as_str().unicode_len() == 0 && class != TargetFileClass::PlainVersion {
            return Err(ScopeDraftError::EmptyTargetKey);
        }
        let recorded = match self.last_probe {
            Some(probe) => match probe.format {
                Some(f) => f,
                None => self.format,
            },
            None => self.format,
        };
        if require_probe {
            match self.last_probe {
                Some(probe) => {
                    if !probe.succeeded {
                        return Err(ScopeDraftError::NotReadYet);
                    }
                },
                None => return Err(ScopeDraftError::NotReadYet),
            }
        }
        let label_blank = trimmed_string(self.label.as_str()).as_str().unicode_len() == 0;
        let label = if self.label_follows_name || label_blank { copy_string(&name) } else { self.label.clone() };
        Ok(BuiltScope {
            name,
            label,
            scope_kind: self.scope_kind,
            changelog_enabled: self.changelog_enabled,
            version_scheme: self.version_scheme,
            repo: self.repo,
            target: TargetSpec {
                label: self.target_label.clone(),
                path: target_path,
                key_path: target_key,
                format: recorded,
            },
        })
    }
}

/// What the delete confirmation dialog would delete.
pub enum DeleteConfirmationTarget {
    Project { project_index: usize, project_name: String },
    Scope {
        project_index: usize,
        project_name: String,
        scope_index: usize,
        scope_name: String,
        scope_kind: BranchScopeKind,
        /// Deleting the scope leaves the project without scopes, so the
        /// project goes too.
        removes_project: bool,
    },
}

pub struct DeleteConfirmationDialog {
    pub target: DeleteConfirmationTarget,
    /// "Delete" rather than "Cancel" is selected.
    pub confirm_selected: bool,
}

impl DeleteConfirmationDialog {
    /// Asks to delete a project, with "Cancel" selected.
    pub fn project(project_index: usize, project_name: String) -> (d: Self)
        ensures
            d.target == (DeleteConfirmationTarget::Project { project_index, project_name }),
            !d.confirm_selected,
    {
        DeleteConfirmationDialog {
            target: DeleteConfirmationTarget::Project { project_index, project_name },
            confirm_selected: false,
        }
    }

    /// Asks to delete a scope, with "Cancel" selected.
    pub fn scope(
        project_index: usize,
        project_name: String,
        scope_index: usize,
        scope_name: String,
        scope_kind: BranchScopeKind,
        removes_project: bool,
    ) -> (d: Self)
        ensures
            d.target == (DeleteConfirmationTarget::Scope {
                project_index, project_name, scope_index, scope_name, scope_kind, removes_project,
            }),
            !d.confirm_selected,
    {
        DeleteConfirmationDialog {
            target: DeleteConfirmationTarget::Scope {
                project_index,
                project_name,
                scope_index,
                scope_name,
                scope_kind,
                removes_project,
            },
            confirm_selected: false,
        }
    }

    /// Moves the selection to the other button.
    pub fn toggle_selection(&mut self)
        ensures
            final(self).confirm_selected == !old(self).confirm_selected,
            final(self).target == old(self).target,
    {
        self.confirm_selected = !self.confirm_selected;
    }
}

} // verus!
