//! Deleting projects and scopes from the dashboard: what the delete key asks
//! to confirm, what a confirmed request removes, where the selection lands
//! afterwards, and what the status line says.

use vstd::prelude::*;
use crate::scope_draft::{BranchScopeKind, DeleteConfirmationDialog, DeleteConfirmationTarget};
use crate::text::{append_str, chars_of, concat_str, contains_seq, vec_contains_seq};

verus! {

/// A scope of a project, as deletion sees it.
pub struct ScopeSummary {
    pub display_name: String,
    pub scope_kind: BranchScopeKind,
}

/// A project, as deletion sees it.
pub struct ProjectSummary {
    pub name: String,
    /// The project is branched into scopes (else it is all-in-one).
    pub branched: bool,
    pub scopes: Vec<ScopeSummary>,
}

/// The selected project and the overview's focused scope.
#[derive(Clone, Copy, Debug, PartialEq, Eq, Structural)]
pub struct DashboardSelection {
    pub selected_project: usize,
    pub focused_scope: usize,
}

/// What the delete key leads to.
pub enum DeleteRequest {
    /// No project is selected.
    NothingSelected,
    /// A confirmation dialog opens, with its status message.
    Confirm(DeleteConfirmationDialog, String),
}

/// Why a confirmed deletion could not be made.
#[derive(Clone, Copy, Debug, PartialEq, Eq, Structural)]
pub enum DeleteError {
    /// "selected project no longer exists"
    ProjectGone,
    /// "selected project does not contain removable scopes"
    NoRemovableScopes,
    /// "selected scope no longer exists"
    ScopeGone,
}

impl DeleteError {
    pub fn message(&self) -> (m: &'static str)
        ensures
            m@ == match *self {
                DeleteError::ProjectGone => "selected project no longer exists"@,
                DeleteError::NoRemovableScopes => "selected project does not contain removable scopes"@,
                DeleteError::ScopeGone => "selected scope no longer exists"@,
            },
    {
        match self {
            DeleteError::ProjectGone => "selected project no longer exists",
            DeleteError::NoRemovableScopes => "selected project does not contain removable scopes",
            DeleteError::ScopeGone => "selected scope no longer exists",
        }
    }
}

/// The scope a delete request for a branched project with `count` scopes
/// names: the focused one, or the last.
pub open spec fn requested_scope(focused: usize, count: int) -> int {
    if focused < count { focused as int } else { count - 1 }
}

/// What the delete key asks: nothing without a selected project; the whole
/// project when it is all-in-one or has no scopes; else the focused scope,
/// which takes the project with it when it is the last.
pub fn request_dashboard_delete(projects: &Vec<ProjectSummary>, sel: DashboardSelection) -> (r: DeleteRequest)
    ensures
        sel.selected_project >= projects@.len() <==> r is NothingSelected,
        r matches DeleteRequest::Confirm(d, status) ==> {
            let p = projects@[sel.selected_project as int];
            &&& !d.confirm_selected
            &&& if !p.branched || p.scopes@.len() == 0 {
                &&& d.target == (DeleteConfirmationTarget::Project { project_index: sel.selected_project, project_name: p.name })
                &&& status@ == "Confirm deletion of project '"@ + p.name@ + "'."@
            } else {
                let s = requested_scope(sel.focused_scope, p.scopes@.len() as int);
                &&& d.target matches DeleteConfirmationTarget::Scope { project_index, project_name, scope_index, scope_name, scope_kind, removes_project }
                &&& project_index == sel.selected_project && project_name == p.name && scope_index == s
                &&& scope_name == p.scopes@[s].display_name && scope_kind == p.scopes@[s].scope_kind
                &&& removes_project == (p.scopes@.len() == 1)
                &&& status@ == "Confirm deletion of scope '"@ + p.scopes@[s].display_name@ + "' from project '"@ + p.name@ + "'."@
            }
        },
{
    if sel.selected_project >= projects.len() {
        return DeleteRequest::NothingSelected;
    }
    let p = &projects[sel.selected_project];
    if !p.branched || p.scopes.len() == 0 {
        let mut status = concat_str("Confirm deletion of project '", p.name.as_str());
        append_str(&mut status, "'.");
        return DeleteRequest::Confirm(DeleteConfirmationDialog::project(sel.selected_project, p.name.clone()), status);
    }
    let count = p.scopes.len();
    let s = if sel.focused_scope < count { sel.focused_scope } else { count - 1 };
    let scope = &p.scopes[s];
    let mut status = concat_str("Confirm deletion of scope '", scope.display_name.as_str());
    append_str(&mut status, "' from project '");
    append_str(&mut status, p.name.as_str());
    append_str(&mut status, "'.");
    let d = DeleteConfirmationDialog::scope(
        sel.selected_project,
        p.name.clone(),
        s,
        scope.display_name.clone(),
        scope.scope_kind,
        count == 1,
    );
    proof {
        assert(d.target matches DeleteConfirmationTarget::Scope { scope_name, .. } && scope_name == p.scopes@[s as int].display_name) by {
            assert(scope.display_name == p.scopes@[s as int].display_name);
        }
    }
    DeleteRequest::Confirm(d, status)
}

/// Asks to delete the project at `project_index` (as the project editor's
/// remove button does): the confirmation and its status, or the error when
/// the project is gone.
pub fn request_project_deletion(projects: &Vec<ProjectSummary>, project_index: usize)
    -> (r: Result<(DeleteConfirmationDialog, String), DeleteError>)
    ensures
        project_index >= projects@.len() <==> r == Err::<(DeleteConfirmationDialog, String), DeleteError>(DeleteError::ProjectGone),
        r matches Ok((d, status)) ==> {
            let p = projects@[project_index as int];
            &&& !d.confirm_selected
            &&& d.target == (DeleteConfirmationTarget::Project { project_index, project_name: p.name })
            &&& status@ == "Confirm deletion of project '"@ + p.name@ + "'."@
        },
{
    if project_index >= projects.len() {
        return Err(DeleteError::ProjectGone);
    }
    let p = &projects[project_index];
    let mut status = concat_str("Confirm deletion of project '", p.name.as_str());
    append_str(&mut status, "'.");
    Ok((DeleteConfirmationDialog::project(project_index, p.name.clone()), status))
}

/// The status shown when the project editor opens.
pub fn project_edit_open_status(branched: bool) -> (m: &'static str)
    ensures
        m@ == if branched {
            "Amend the selected scope settings, then save or update scopes."@
        } else {
            "Amend project settings, then save or remove the project."@
        },
{
    if branched {
        "Amend the selected scope settings, then save or update scopes."
    } else {
        "Amend project settings, then save or remove the project."
    }
}

/// The scope the project editor opens on: the overview's focused scope, for
/// a branched project.
pub fn project_edit_preferred_scope(branched: bool, focused_scope: usize) -> (r: Option<usize>)
    ensures
        r == if branched { Some(focused_scope) } else { None::<usize> },
{
    if branched { Some(focused_scope) } else { None }
}

/// Where an error from saving the project editor goes.
#[derive(Clone, Copy, Debug, PartialEq, Eq, Structural)]
pub enum SaveErrorRoute {
    /// The editor stays open and the error shows in the status line with a
    /// toast (a new scope of a branched project without a target path).
    StatusToast,
    /// The save fails with the error.
    Fail,
}

/// A branched project's error about an empty target path stays in the
/// editor; every other error fails the save.
pub fn save_error_route(branched: bool, error: &str) -> (r: SaveErrorRoute)
    ensures
        r == if branched && contains_seq(error@, "target path cannot be empty"@) {
            SaveErrorRoute::StatusToast
        } else {
            SaveErrorRoute::Fail
        },
{
    let mentions = vec_contains_seq(&chars_of(error), &chars_of("target path cannot be empty"));
    proof { reveal_strlit("target path cannot be empty"); }
    if branched && mentions { SaveErrorRoute::StatusToast } else { SaveErrorRoute::Fail }
}

/// The status after the project editor saved.
pub fn project_saved_status() -> (m: &'static str)
    ensures
        m@ == "Project settings updated."@,
{
    "Project settings updated."
}

/// The selection after a deletion: everything back to the start when no
/// project is left, else the project at `hint` or the last one.
pub open spec fn selection_after(sel: DashboardSelection, remaining: int, hint: usize) -> DashboardSelection {
    if remaining == 0 {
        DashboardSelection { selected_project: 0, focused_scope: 0 }
    } else {
        DashboardSelection { selected_project: if hint < remaining { hint } else { (remaining - 1) as usize }, ..sel }
    }
}

fn select_after(sel: &mut DashboardSelection, remaining: usize, hint: usize)
    ensures
        *final(sel) == selection_after(*old(sel), remaining as int, hint),
{
    if remaining == 0 {
        sel.selected_project = 0;
        sel.focused_scope = 0;
    } else {
        sel.selected_project = if hint < remaining { hint } else { remaining - 1 };
    }
}

/// Carries out a confirmed deletion and returns its success message:
/// a project goes as a whole; a scope goes from its branched project, or
/// takes the project with it when the confirmation said it was the last.
/// The selection stays on the project's place (or the last project), and
/// after a scope's removal the focus stays on its place among the scopes left.
pub fn confirm_delete_request(projects: &mut Vec<ProjectSummary>, sel: &mut DashboardSelection, target: &DeleteConfirmationTarget)
    -> (r: Result<String, DeleteError>)
    ensures
        match *target {
            DeleteConfirmationTarget::Project { project_index, .. } => {
                if project_index >= old(projects)@.len() {
                    r == Err::<String, DeleteError>(DeleteError::ProjectGone) && final(projects)@ == old(projects)@ && *final(sel) == *old(sel)
                } else {
                    &&& r matches Ok(m) && m@ == "Removed project '"@ + old(projects)@[project_index as int].name@ + "'."@
                    &&& final(projects)@ == old(projects)@.remove(project_index as int)
                    &&& *final(sel) == selection_after(*old(sel), final(projects)@.len() as int, project_index)
                }
            },
            DeleteConfirmationTarget::Scope { project_index, scope_index, removes_project, .. } => {
                if project_index >= old(projects)@.len() {
                    r == Err::<String, DeleteError>(DeleteError::ProjectGone) && final(projects)@ == old(projects)@ && *final(sel) == *old(sel)
                } else if !old(projects)@[project_index as int].branched {
                    r == Err::<String, DeleteError>(DeleteError::NoRemovableScopes) && final(projects)@ == old(projects)@ && *final(sel) == *old(sel)
                } else if scope_index >= old(projects)@[project_index as int].scopes@.len() {
                    r == Err::<String, DeleteError>(DeleteError::ScopeGone) && final(projects)@ == old(projects)@ && *final(sel) == *old(sel)
                } else {
                    let p = old(projects)@[project_index as int];
                    let scope_name = p.scopes@[scope_index as int].display_name@;
                    if removes_project {
                        &&& r matches Ok(m) && m@ == "Removed scope '"@ + scope_name + "' and deleted project '"@ + p.name@
                            + "' because it had no scopes left."@
                        &&& final(projects)@ == old(projects)@.remove(project_index as int)
                        &&& *final(sel) == selection_after(*old(sel), final(projects)@.len() as int, project_index)
                    } else {
                        let left = (p.scopes@.len() - 1) as int;
                        let focused = if left > 0 {
                            if (scope_index as int) < left { scope_index } else { (left - 1) as usize }
                        } else {
                            old(sel).focused_scope
                        };
                        &&& r matches Ok(m) && m@ == "Removed scope '"@ + scope_name + "' from project '"@ + p.name@ + "'."@
                        &&& final(projects)@.len() == old(projects)@.len()
                        &&& forall|i: int| 0 <= i < old(projects)@.len() && i != project_index ==> final(projects)@[i] == old(projects)@[i]
                        &&& final(projects)@[project_index as int].name == p.name
                        &&& final(projects)@[project_index as int].branched == p.branched
                        &&& final(projects)@[project_index as int].scopes@ == p.scopes@.remove(scope_index as int)
                        &&& *final(sel) == (DashboardSelection { focused_scope: focused, ..selection_after(*old(sel), old(projects)@.len() as int, project_index) })
                    }
                }
            },
        },
{
    match target {
        DeleteConfirmationTarget::Project { project_index, .. } => {
            let i = *project_index;
            if i >= projects.len() {
                return Err(DeleteError::ProjectGone);
            }
            let removed = projects.remove(i);
            select_after(sel, projects.len(), i);
            let mut m = concat_str("Removed project '", removed.name.as_str());
            append_str(&mut m, "'.");
            Ok(m)
        },
        DeleteConfirmationTarget::Scope { project_index, scope_index, removes_project, .. } => {
            let i = *project_index;
            let s = *scope_index;
            if i >= projects.len() {
                return Err(DeleteError::ProjectGone);
            }
            if !projects[i].branched {
                return Err(DeleteError::NoRemovableScopes);
            }
            if s >= projects[i].scopes.len() {
                return Err(DeleteError::ScopeGone);
            }
            if *removes_project {
                let removed = projects.remove(i);
                let mut m = concat_str("Removed scope '", removed.scopes[s].display_name.as_str());
                append_str(&mut m, "' and deleted project '");
                append_str(&mut m, removed.name.as_str());
                append_str(&mut m, "' because it had no scopes left.");
                select_after(sel, projects.len(), i);
                return Ok(m);
            }
            let ghost old_projects = projects@;
            let mut project = projects.remove(i);
            let scope = project.scopes.remove(s);
            let left = project.scopes.len();
            let mut m = concat_str("Removed scope '", scope.display_name.as_str());
            append_str(&mut m, "' from project '");
            append_str(&mut m, project.name.as_str());
            append_str(&mut m, "'.");
            projects.insert(i, project);
            proof {
                assert forall|k: int| 0 <= k < old_projects.len() && k != i implies projects@[k] == old_projects[k] by {
                    if k < i {
                        assert(projects@[k] == old_projects.remove(i as int)[k]);
                    } else {
                        assert(projects@[k] == old_projects.remove(i as int)[k - 1]);
                    }
                }
            }
            select_after(sel, projects.len(), i);
            if left > 0 {
                sel.focused_scope = if s < left { s } else { left - 1 };
            }
            Ok(m)
        },
    }
}

/// The status after the user cancels a deletion.
pub fn deletion_cancelled_status() -> (m: &'static str)
    ensures
        m@ == "Deletion cancelled."@,
{
    "Deletion cancelled."
}

/// After a deletion the selection is on a project that exists, or at the
/// start when none is left.
pub proof fn law_selection_stays_on_the_list(sel: DashboardSelection, remaining: int, hint: usize)
    requires
        0 <= remaining,
    ensures
        remaining > 0 ==> selection_after(sel, remaining, hint).selected_project < remaining,
        remaining == 0 ==> selection_after(sel, remaining, hint) == (DashboardSelection { selected_project: 0, focused_scope: 0 }),
{
}

} // verus!
