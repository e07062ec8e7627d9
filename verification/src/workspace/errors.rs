//! Errors of the workspace domain.

use vstd::prelude::*;
use crate::workspace::ids::{UserId, WorkspaceApiKeyId, WorkspaceId, WorkspaceMembershipId};

verus! {

pub type WorkspaceResult<T> = Result<T, WorkspaceError>;

/// Every way a workspace use case can fail, with the identifiers involved.
#[derive(Debug, PartialEq, Eq)]
pub enum WorkspaceError {
    WorkspaceNotFound { workspace_id: WorkspaceId },
    UserNotFound { user_id: UserId },
    SuperAdminRequired { user_id: UserId },
    MembershipNotFound { membership_id: WorkspaceMembershipId },
    MembershipNotFoundForWorkspaceUser { workspace_id: WorkspaceId, user_id: UserId },
    MemberAlreadyExists { workspace_id: WorkspaceId, user_id: UserId },
    PermissionDenied { user_id: UserId, workspace_id: WorkspaceId },
    LastOwnerRemovalDenied { workspace_id: WorkspaceId, user_id: UserId },
    LastOwnerDemotionDenied { workspace_id: WorkspaceId, user_id: UserId },
    OwnerPeerMutationDenied { actor_user_id: UserId, target_user_id: UserId, workspace_id: WorkspaceId },
    OwnerPromotionRequiresSuperAdmin { actor_user_id: UserId, target_user_id: UserId, workspace_id: WorkspaceId },
    WorkspacePermissionMismatch { permission_workspace_id: WorkspaceId, target_workspace_id: WorkspaceId },
    CredentialNotFound { api_key_id: WorkspaceApiKeyId, workspace_id: WorkspaceId },
    /// The workspace's last update lies where one more millisecond leaves the supported calendar range.
    LastUpdatedOutOfRange { workspace_id: WorkspaceId },
}

impl Clone for WorkspaceError {
    fn clone(&self) -> (r: Self)
        ensures
            r == *self,
    {
        match self {
            WorkspaceError::WorkspaceNotFound { workspace_id } => WorkspaceError::WorkspaceNotFound { workspace_id: workspace_id.clone() },
            WorkspaceError::UserNotFound { user_id } => WorkspaceError::UserNotFound { user_id: user_id.clone() },
            WorkspaceError::SuperAdminRequired { user_id } => WorkspaceError::SuperAdminRequired { user_id: user_id.clone() },
            WorkspaceError::MembershipNotFound { membership_id } => WorkspaceError::MembershipNotFound { membership_id: membership_id.clone() },
            WorkspaceError::MembershipNotFoundForWorkspaceUser { workspace_id, user_id } => WorkspaceError::MembershipNotFoundForWorkspaceUser { workspace_id: workspace_id.clone(), user_id: user_id.clone() },
            WorkspaceError::MemberAlreadyExists { workspace_id, user_id } => WorkspaceError::MemberAlreadyExists { workspace_id: workspace_id.clone(), user_id: user_id.clone() },
            WorkspaceError::PermissionDenied { user_id, workspace_id } => WorkspaceError::PermissionDenied { user_id: user_id.clone(), workspace_id: workspace_id.clone() },
            WorkspaceError::LastOwnerRemovalDenied { workspace_id, user_id } => WorkspaceError::LastOwnerRemovalDenied { workspace_id: workspace_id.clone(), user_id: user_id.clone() },
            WorkspaceError::LastOwnerDemotionDenied { workspace_id, user_id } => WorkspaceError::LastOwnerDemotionDenied { workspace_id: workspace_id.clone(), user_id: user_id.clone() },
            WorkspaceError::OwnerPeerMutationDenied { actor_user_id, target_user_id, workspace_id } => WorkspaceError::OwnerPeerMutationDenied { actor_user_id: actor_user_id.clone(), target_user_id: target_user_id.clone(), workspace_id: workspace_id.clone() },
            WorkspaceError::OwnerPromotionRequiresSuperAdmin { actor_user_id, target_user_id, workspace_id } => WorkspaceError::OwnerPromotionRequiresSuperAdmin { actor_user_id: actor_user_id.clone(), target_user_id: target_user_id.clone(), workspace_id: workspace_id.clone() },
            WorkspaceError::WorkspacePermissionMismatch { permission_workspace_id, target_workspace_id } => WorkspaceError::WorkspacePermissionMismatch { permission_workspace_id: permission_workspace_id.clone(), target_workspace_id: target_workspace_id.clone() },
            WorkspaceError::CredentialNotFound { api_key_id, workspace_id } => WorkspaceError::CredentialNotFound { api_key_id: api_key_id.clone(), workspace_id: workspace_id.clone() },
            WorkspaceError::LastUpdatedOutOfRange { workspace_id } => WorkspaceError::LastUpdatedOutOfRange { workspace_id: workspace_id.clone() },
        }
    }
}

impl WorkspaceError {
    /// The message of each error.
    pub open spec fn message(self) -> Seq<char> {
        match self {
            WorkspaceError::WorkspaceNotFound { workspace_id } => "workspace not found: "@ + workspace_id@,
            WorkspaceError::UserNotFound { user_id } => "user not found: "@ + user_id@,
            WorkspaceError::SuperAdminRequired { user_id } => "super admin role required for user "@ + user_id@,
            WorkspaceError::MembershipNotFound { membership_id } => "workspace membership not found: "@ + membership_id@,
            WorkspaceError::MembershipNotFoundForWorkspaceUser { workspace_id, user_id } => "workspace membership not found for user "@ + user_id@ + " in workspace "@ + workspace_id@,
            WorkspaceError::MemberAlreadyExists { workspace_id, user_id } => "workspace member already exists for user "@ + user_id@ + " in workspace "@ + workspace_id@,
            WorkspaceError::PermissionDenied { user_id, workspace_id } => "permission denied for user "@ + user_id@ + " on workspace "@ + workspace_id@,
            WorkspaceError::LastOwnerRemovalDenied { workspace_id, user_id } => "cannot remove the last owner "@ + user_id@ + " from workspace "@ + workspace_id@,
            WorkspaceError::LastOwnerDemotionDenied { workspace_id, user_id } => "cannot demote the last owner "@ + user_id@ + " in workspace "@ + workspace_id@,
            WorkspaceError::OwnerPeerMutationDenied { actor_user_id, target_user_id, workspace_id } => "owner "@ + actor_user_id@ + " cannot mutate peer owner "@ + target_user_id@ + " in workspace "@ + workspace_id@,
            WorkspaceError::OwnerPromotionRequiresSuperAdmin { actor_user_id, target_user_id, workspace_id } => "only super admin can promote user "@ + target_user_id@ + " to owner in workspace "@ + workspace_id@ + "; actor was "@ + actor_user_id@,
            WorkspaceError::WorkspacePermissionMismatch { permission_workspace_id, target_workspace_id } => "workspace permission mismatch: permission for "@ + permission_workspace_id@ + " cannot write target "@ + target_workspace_id@,
            WorkspaceError::CredentialNotFound { api_key_id, workspace_id } => "workspace credential not found: "@ + api_key_id@ + " in workspace "@ + workspace_id@,
            WorkspaceError::LastUpdatedOutOfRange { workspace_id } => "workspace last update cannot move forward: "@ + workspace_id@,
        }
    }

    pub fn to_string(&self) -> (r: String)
        ensures
            r@ == self.message(),
    {
        match self {
            WorkspaceError::WorkspaceNotFound { workspace_id } => "workspace not found: ".to_owned().concat(workspace_id.as_str()),
            WorkspaceError::UserNotFound { user_id } => "user not found: ".to_owned().concat(user_id.as_str()),
            WorkspaceError::SuperAdminRequired { user_id } => "super admin role required for user ".to_owned().concat(user_id.as_str()),
            WorkspaceError::MembershipNotFound { membership_id } => "workspace membership not found: ".to_owned().concat(membership_id.as_str()),
            WorkspaceError::MembershipNotFoundForWorkspaceUser { workspace_id, user_id } => "workspace membership not found for user ".to_owned().concat(user_id.as_str()).concat(" in workspace ").concat(workspace_id.as_str()),
            WorkspaceError::MemberAlreadyExists { workspace_id, user_id } => "workspace member already exists for user ".to_owned().concat(user_id.as_str()).concat(" in workspace ").concat(workspace_id.as_str()),
            WorkspaceError::PermissionDenied { user_id, workspace_id } => "permission denied for user ".to_owned().concat(user_id.as_str()).concat(" on workspace ").concat(workspace_id.as_str()),
            WorkspaceError::LastOwnerRemovalDenied { workspace_id, user_id } => "cannot remove the last owner ".to_owned().concat(user_id.as_str()).concat(" from workspace ").concat(workspace_id.as_str()),
            WorkspaceError::LastOwnerDemotionDenied { workspace_id, user_id } => "cannot demote the last owner ".to_owned().concat(user_id.as_str()).concat(" in workspace ").concat(workspace_id.as_str()),
            WorkspaceError::OwnerPeerMutationDenied { actor_user_id, target_user_id, workspace_id } => "owner ".to_owned().concat(actor_user_id.as_str()).concat(" cannot mutate peer owner ").concat(target_user_id.as_str()).concat(" in workspace ").concat(workspace_id.as_str()),
            WorkspaceError::OwnerPromotionRequiresSuperAdmin { actor_user_id, target_user_id, workspace_id } => "only super admin can promote user ".to_owned().concat(target_user_id.as_str()).concat(" to owner in workspace ").concat(workspace_id.as_str()).concat("; actor was ").concat(actor_user_id.as_str()),
            WorkspaceError::WorkspacePermissionMismatch { permission_workspace_id, target_workspace_id } => "workspace permission mismatch: permission for ".to_owned().concat(permission_workspace_id.as_str()).concat(" cannot write target ").concat(target_workspace_id.as_str()),
            WorkspaceError::CredentialNotFound { api_key_id, workspace_id } => "workspace credential not found: ".to_owned().concat(api_key_id.as_str()).concat(" in workspace ").concat(workspace_id.as_str()),
            WorkspaceError::LastUpdatedOutOfRange { workspace_id } => "workspace last update cannot move forward: ".to_owned().concat(workspace_id.as_str()),
        }
    }
}

} // verus!
