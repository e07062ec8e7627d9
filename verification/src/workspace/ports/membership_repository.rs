use vstd::prelude::*;
use crate::workspace::errors::WorkspaceResult;
use crate::workspace::ids::{UserId, WorkspaceId, WorkspaceMembershipId};
use crate::workspace::membership::WorkspaceMembership;

verus! {

/// Abstracts persistence for workspace membership assignments.
///
/// Use this port when a use case needs to answer who belongs to a workspace,
/// what role they hold there, or to persist membership changes without binding
/// the domain to a specific backing store.
///
/// Each `spec fn` here says which answers a store may give to a call; an
/// implementation defines them from what it holds. They relate one call to
/// its answer only, and claim nothing about two calls agreeing.
pub trait MembershipRepository: Send + Sync {
    /// Whether `r` is an answer this store may give to a lookup of the
    /// membership of `user_id` in `workspace_id`.
    spec fn finds(&self, workspace_id: WorkspaceId, user_id: UserId, r: WorkspaceResult<WorkspaceMembership>) -> bool;

    /// Whether `r` is an answer this store may give when asked for the
    /// memberships of `user_id`.
    spec fn lists_for_user(&self, user_id: UserId, r: WorkspaceResult<Vec<WorkspaceMembership>>) -> bool;

    /// Whether `r` is an answer this store may give when asked for the
    /// memberships of `workspace_id`.
    spec fn lists_for_workspace(
        &self,
        workspace_id: WorkspaceId,
        r: WorkspaceResult<Vec<WorkspaceMembership>>,
    ) -> bool;

    /// Whether `r` is an answer this store may give when asked to save
    /// `membership` and bump its workspace.
    spec fn saves_with_bump(&self, membership: WorkspaceMembership, r: WorkspaceResult<()>) -> bool;

    /// Whether `r` is an answer this store may give when asked to remove the
    /// membership `membership_id` of `workspace_id` and bump the workspace.
    spec fn removes_with_bump(
        &self,
        workspace_id: WorkspaceId,
        membership_id: WorkspaceMembershipId,
        r: WorkspaceResult<()>,
    ) -> bool;

    /// Returns an error when the membership is absent.
    fn get(&self, membership_id: &WorkspaceMembershipId) -> (r: WorkspaceResult<WorkspaceMembership>)
        ensures
            r matches Ok(membership) ==> membership@.id@ == membership_id@,
    ;

    /// Returns an error when the membership is absent for that workspace-user pair.
    fn find_for_workspace_user(
        &self,
        workspace_id: &WorkspaceId,
        user_id: &UserId,
    ) -> (r: WorkspaceResult<WorkspaceMembership>)
        ensures
            r matches Ok(membership) ==> membership@.workspace_id@ == workspace_id@
                && membership@.user_id@ == user_id@,
            self.finds(*workspace_id, *user_id, r),
    ;

    /// Returns memberships for one user across workspaces in storage-defined order.
    fn list_for_user(&self, user_id: &UserId) -> (r: WorkspaceResult<Vec<WorkspaceMembership>>)
        ensures
            r matches Ok(memberships) ==> forall|i: int|
                0 <= i < memberships@.len() ==> #[trigger] memberships@[i]@.user_id@ == user_id@,
            self.lists_for_user(*user_id, r),
    ;

    /// Returns memberships in storage-defined order; callers must not rely on sorting.
    fn list_for_workspace(&self, workspace_id: &WorkspaceId) -> (r: WorkspaceResult<
        Vec<WorkspaceMembership>,
    >)
        ensures
            r matches Ok(memberships) ==> forall|i: int|
                0 <= i < memberships@.len() ==> #[trigger] memberships@[i]@.workspace_id@
                    == workspace_id@,
            self.lists_for_workspace(*workspace_id, r),
    ;

    /// Removes the membership when it exists.
    fn remove(&self, membership_id: &WorkspaceMembershipId) -> (r: WorkspaceResult<()>);

    /// Saves a new membership and bumps the owning workspace timestamp atomically.
    fn save_with_workspace_bump(&self, membership: &WorkspaceMembership) -> (r: WorkspaceResult<()>)
        ensures
            self.saves_with_bump(*membership, r),
    ;

    /// Removes a membership and bumps the owning workspace timestamp atomically.
    fn remove_with_workspace_bump(
        &self,
        workspace_id: &WorkspaceId,
        membership_id: &WorkspaceMembershipId,
    ) -> (r: WorkspaceResult<()>)
        ensures
            self.removes_with_bump(*workspace_id, *membership_id, r),
    ;

    /// Saves the membership as an upsert.
    fn save(&self, membership: &WorkspaceMembership) -> (r: WorkspaceResult<()>);
}

} // verus!
