use vstd::prelude::*;
use crate::workspace::errors::WorkspaceResult;
use crate::workspace::ids::WorkspaceId;
use crate::workspace::membership::WorkspaceMembership;
use crate::workspace::workspace::Workspace;

verus! {

/// Abstracts persistence for workspace aggregate state.
///
/// Use this port when a use case needs to load or persist the canonical
/// workspace entity without depending on storage details.
///
/// Each `spec fn` here says which answers a store may give to a call; an
/// implementation defines them from what it holds.
pub trait WorkspaceRepository {
    /// Whether `r` is an answer this store may give to a lookup of `workspace_id`.
    spec fn gets(&self, workspace_id: WorkspaceId, r: WorkspaceResult<Workspace>) -> bool;

    /// Whether `r` is an answer this store may give when asked for every workspace.
    spec fn lists_all(&self, r: WorkspaceResult<Vec<Workspace>>) -> bool;

    /// Whether `r` is an answer this store may give when asked for the workspaces `workspace_ids`.
    spec fn lists_for_ids(&self, workspace_ids: &[WorkspaceId], r: WorkspaceResult<Vec<Workspace>>) -> bool;

    /// Whether `r` is an answer this store may give when asked to create
    /// `workspace` with `owner_membership`.
    spec fn creates_with_owner(
        &self,
        workspace: Workspace,
        owner_membership: WorkspaceMembership,
        r: WorkspaceResult<()>,
    ) -> bool;

    /// Whether `r` is an answer this store may give when asked to save `workspace`.
    spec fn saves(&self, workspace: Workspace, r: WorkspaceResult<()>) -> bool;

    /// Returns an error when the workspace is absent.
    fn get(&self, workspace_id: &WorkspaceId) -> (r: WorkspaceResult<Workspace>)
        ensures
            r matches Ok(workspace) ==> workspace@.id@ == workspace_id@,
            self.gets(*workspace_id, r),
    ;

    /// Returns all workspaces visible to cross-workspace admin flows.
    fn list_all(&self) -> (r: WorkspaceResult<Vec<Workspace>>)
        ensures
            self.lists_all(r),
    ;

    /// Returns the workspaces for the provided ids in storage-defined order.
    fn list_for_ids(&self, workspace_ids: &[WorkspaceId]) -> (r: WorkspaceResult<Vec<Workspace>>)
        ensures
            r matches Ok(workspaces) ==> forall|i: int|
                0 <= i < workspaces@.len() ==> exists|j: int|
                    0 <= j < workspace_ids@.len() && #[trigger] workspaces@[i]@.id@
                        == workspace_ids@[j]@,
            self.lists_for_ids(workspace_ids, r),
    ;

    /// Atomically creates the workspace together with its bootstrap owner membership.
    fn create_with_owner(
        &self,
        workspace: &Workspace,
        owner_membership: &WorkspaceMembership,
    ) -> (r: WorkspaceResult<()>)
        ensures
            self.creates_with_owner(*workspace, *owner_membership, r),
    ;

    /// Saves the full aggregate state as an upsert.
    fn save(&self, workspace: &Workspace) -> (r: WorkspaceResult<()>)
        ensures
            self.saves(*workspace, r),
    ;
}

} // verus!
