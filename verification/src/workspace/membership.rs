//! One user's membership in one workspace.

use vstd::prelude::*;
use crate::workspace::ids::{UserId, WorkspaceId, WorkspaceMembershipId};
use crate::workspace::role::WorkspaceRole;

verus! {

/// The fields of a membership.
pub struct MembershipModel {
    pub id: WorkspaceMembershipId,
    pub workspace_id: WorkspaceId,
    pub user_id: UserId,
    pub role: WorkspaceRole,
}

/// One user's membership in one workspace together with the role granted
/// inside that workspace.
#[derive(Debug, PartialEq, Eq)]
pub struct WorkspaceMembership {
    id: WorkspaceMembershipId,
    workspace_id: WorkspaceId,
    user_id: UserId,
    role: WorkspaceRole,
}

impl View for WorkspaceMembership {
    type V = MembershipModel;

    closed spec fn view(&self) -> MembershipModel {
        MembershipModel {
            id: self.id,
            workspace_id: self.workspace_id,
            user_id: self.user_id,
            role: self.role,
        }
    }
}

impl Clone for WorkspaceMembership {
    fn clone(&self) -> (r: Self)
        ensures
            r == *self,
    {
        WorkspaceMembership {
            id: self.id.clone(),
            workspace_id: self.workspace_id.clone(),
            user_id: self.user_id.clone(),
            role: self.role,
        }
    }
}

impl WorkspaceMembership {
    pub fn new(
        id: WorkspaceMembershipId,
        workspace_id: WorkspaceId,
        user_id: UserId,
        role: WorkspaceRole,
    ) -> (r: Self)
        ensures
            r@ == (MembershipModel { id, workspace_id, user_id, role }),
    {
        WorkspaceMembership { id, workspace_id, user_id, role }
    }

    pub fn id(&self) -> (r: &WorkspaceMembershipId)
        ensures
            *r == self@.id,
    {
        &self.id
    }

    pub fn workspace_id(&self) -> (r: &WorkspaceId)
        ensures
            *r == self@.workspace_id,
    {
        &self.workspace_id
    }

    pub fn user_id(&self) -> (r: &UserId)
        ensures
            *r == self@.user_id,
    {
        &self.user_id
    }

    pub fn role(&self) -> (r: WorkspaceRole)
        ensures
            r == self@.role,
    {
        self.role
    }

    pub fn is_owner(&self) -> (r: bool)
        ensures
            r == (self@.role == WorkspaceRole::Owner),
    {
        self.role == WorkspaceRole::Owner
    }

    /// Replaces the stored role; the id, workspace and user stay.
    pub fn change_role(&mut self, role: WorkspaceRole)
        ensures
            final(self)@ == (MembershipModel { role, ..old(self)@ }),
    {
        self.role = role;
    }
}

} // verus!
