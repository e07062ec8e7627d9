//! Workspace-level values, read models and update requests.

use vstd::prelude::*;
use crate::workspace::credentials::{WorkspaceApiKeyMetadata, WorkspaceCredentialStatus};
use crate::workspace::ids::{
    UserId, WorkspaceApiKeyId, WorkspaceId, WorkspaceMembershipId, WorkspaceSecretRefId,
    WorkspaceSecretVersion,
};
use crate::workspace::policy::WorkspacePolicy;
use crate::workspace::role::WorkspaceRole;
use crate::workspace::status::WorkspaceStatus;
use crate::workspace::timestamp::WorkspaceLastUpdated;
use crate::workspace::user::User;
use crate::workspace::user_types::{DisplayName, GlobalUserRole, UserEmail, UserStatus};
use crate::workspace::workspace::Workspace;

verus! {

/// Display name of a workspace.
#[derive(Debug, Hash)]
pub struct WorkspaceName(String);

impl View for WorkspaceName {
    type V = Seq<char>;

    closed spec fn view(&self) -> Seq<char> {
        self.0@
    }
}

impl WorkspaceName {
    pub fn new(value: &str) -> (r: Self)
        ensures
            r@ == value@,
    {
        WorkspaceName(value.to_owned())
    }

    pub fn as_str(&self) -> (r: &str)
        ensures
            r@ == self@,
    {
        self.0.as_str()
    }

    /// The text of the value.
    pub fn to_string(&self) -> (r: String)
        ensures
            r@ == self@,
    {
        self.0.clone()
    }
}

impl Clone for WorkspaceName {
    fn clone(&self) -> (r: Self)
        ensures
            r == *self,
    {
        WorkspaceName(self.0.clone())
    }
}

impl PartialEq for WorkspaceName {
    fn eq(&self, other: &Self) -> (r: bool) {
        self.0 == other.0
    }
}

impl vstd::std_specs::cmp::PartialEqSpecImpl for WorkspaceName {
    open spec fn obeys_eq_spec() -> bool {
        true
    }

    open spec fn eq_spec(&self, other: &Self) -> bool {
        self@ == other@
    }
}

impl Eq for WorkspaceName {}

/// URL-safe short name of a workspace.
#[derive(Debug, Hash)]
pub struct WorkspaceSlug(String);

impl View for WorkspaceSlug {
    type V = Seq<char>;

    closed spec fn view(&self) -> Seq<char> {
        self.0@
    }
}

impl WorkspaceSlug {
    pub fn new(value: &str) -> (r: Self)
        ensures
            r@ == value@,
    {
        WorkspaceSlug(value.to_owned())
    }

    pub fn as_str(&self) -> (r: &str)
        ensures
            r@ == self@,
    {
        self.0.as_str()
    }

    /// The text of the value.
    pub fn to_string(&self) -> (r: String)
        ensures
            r@ == self@,
    {
        self.0.clone()
    }
}

impl Clone for WorkspaceSlug {
    fn clone(&self) -> (r: Self)
        ensures
            r == *self,
    {
        WorkspaceSlug(self.0.clone())
    }
}

impl PartialEq for WorkspaceSlug {
    fn eq(&self, other: &Self) -> (r: bool) {
        self.0 == other.0
    }
}

impl vstd::std_specs::cmp::PartialEqSpecImpl for WorkspaceSlug {
    open spec fn obeys_eq_spec() -> bool {
        true
    }

    open spec fn eq_spec(&self, other: &Self) -> bool {
        self@ == other@
    }
}

impl Eq for WorkspaceSlug {}

/// Defaults applied to rooms created in a workspace.
#[derive(Debug, Clone, Copy, PartialEq, Eq, Structural)]
pub struct DefaultRoomPolicy {
    pub guest_join_enabled: bool,
    pub token_ttl_seconds: u32,
}

impl DefaultRoomPolicy {
    pub fn new(guest_join_enabled: bool, token_ttl_seconds: u32) -> (r: Self)
        ensures
            r == (DefaultRoomPolicy { guest_join_enabled, token_ttl_seconds }),
    {
        DefaultRoomPolicy { guest_join_enabled, token_ttl_seconds }
    }
}

/// A workspace as listed to the actors who can see it.
#[derive(Debug, PartialEq, Eq)]
pub struct WorkspaceSummary {
    pub workspace_id: WorkspaceId,
    pub name: WorkspaceName,
    pub slug: WorkspaceSlug,
    pub status: WorkspaceStatus,
    pub last_updated: WorkspaceLastUpdated,
}

impl Clone for WorkspaceSummary {
    fn clone(&self) -> (r: Self)
        ensures
            r == *self,
    {
        WorkspaceSummary {
            workspace_id: self.workspace_id.clone(),
            name: self.name.clone(),
            slug: self.slug.clone(),
            status: self.status,
            last_updated: self.last_updated,
        }
    }
}

impl WorkspaceSummary {
    /// The summary the workspace gives of itself.
    pub open spec fn of(workspace: Workspace) -> WorkspaceSummary {
        WorkspaceSummary {
            workspace_id: workspace@.id,
            name: workspace@.name,
            slug: workspace@.slug,
            status: workspace@.status,
            last_updated: workspace@.last_updated,
        }
    }

    pub fn from_workspace(workspace: &Workspace) -> (r: Self)
        ensures
            r == WorkspaceSummary::of(*workspace),
            r.workspace_id == workspace@.id,
            r.name == workspace@.name,
            r.slug == workspace@.slug,
            r.status == workspace@.status,
            r.last_updated == workspace@.last_updated,
    {
        WorkspaceSummary {
            workspace_id: workspace.id().clone(),
            name: workspace.name().clone(),
            slug: workspace.slug().clone(),
            status: workspace.status(),
            last_updated: workspace.last_updated(),
        }
    }
}

/// Full read model of one workspace.
#[derive(Debug, PartialEq, Eq)]
pub struct WorkspaceDetail {
    pub workspace_id: WorkspaceId,
    pub name: WorkspaceName,
    pub slug: WorkspaceSlug,
    pub status: WorkspaceStatus,
    pub policy: WorkspacePolicy,
    pub default_room_policy: DefaultRoomPolicy,
    pub last_updated: WorkspaceLastUpdated,
}

impl Clone for WorkspaceDetail {
    fn clone(&self) -> (r: Self)
        ensures
            r == *self,
    {
        WorkspaceDetail {
            workspace_id: self.workspace_id.clone(),
            name: self.name.clone(),
            slug: self.slug.clone(),
            status: self.status,
            policy: self.policy,
            default_room_policy: self.default_room_policy,
            last_updated: self.last_updated,
        }
    }
}

impl WorkspaceDetail {
    /// The detail the workspace gives of itself.
    pub open spec fn of(workspace: Workspace) -> WorkspaceDetail {
        WorkspaceDetail {
            workspace_id: workspace@.id,
            name: workspace@.name,
            slug: workspace@.slug,
            status: workspace@.status,
            policy: workspace@.policy,
            default_room_policy: workspace@.default_room_policy,
            last_updated: workspace@.last_updated,
        }
    }

    pub fn from_workspace(workspace: &Workspace) -> (r: Self)
        ensures
            r == WorkspaceDetail::of(*workspace),
    {
        WorkspaceDetail {
            workspace_id: workspace.id().clone(),
            name: workspace.name().clone(),
            slug: workspace.slug().clone(),
            status: workspace.status(),
            policy: *workspace.policy(),
            default_room_policy: *workspace.default_room_policy(),
            last_updated: workspace.last_updated(),
        }
    }
}

/// The fields an owner may change on a workspace.
#[derive(Debug, PartialEq, Eq)]
pub struct WorkspaceUpdate {
    pub name: WorkspaceName,
    pub status: WorkspaceStatus,
    pub default_room_policy: DefaultRoomPolicy,
}

impl Clone for WorkspaceUpdate {
    fn clone(&self) -> (r: Self)
        ensures
            r == *self,
    {
        WorkspaceUpdate {
            name: self.name.clone(),
            status: self.status,
            default_room_policy: self.default_room_policy,
        }
    }
}

impl WorkspaceUpdate {
    pub fn new(
        name: WorkspaceName,
        status: WorkspaceStatus,
        default_room_policy: DefaultRoomPolicy,
    ) -> (r: Self)
        ensures
            r == (WorkspaceUpdate { name, status, default_room_policy }),
    {
        WorkspaceUpdate { name, status, default_room_policy }
    }
}

/// What downstream verifiers need to know of one API key.
#[derive(Debug, PartialEq, Eq)]
pub struct WorkspaceCredentialVerifier {
    pub api_key_id: WorkspaceApiKeyId,
    pub secret_ref_id: WorkspaceSecretRefId,
    pub version: WorkspaceSecretVersion,
    pub status: WorkspaceCredentialStatus,
}

impl Clone for WorkspaceCredentialVerifier {
    fn clone(&self) -> (r: Self)
        ensures
            r == *self,
    {
        WorkspaceCredentialVerifier {
            api_key_id: self.api_key_id.clone(),
            secret_ref_id: self.secret_ref_id.clone(),
            version: self.version,
            status: self.status,
        }
    }
}

impl WorkspaceCredentialVerifier {
    /// The verifier that the key metadata describes.
    pub open spec fn of(metadata: WorkspaceApiKeyMetadata) -> WorkspaceCredentialVerifier {
        WorkspaceCredentialVerifier {
            api_key_id: metadata.api_key_id,
            secret_ref_id: metadata.secret_ref.secret_ref_id,
            version: metadata.secret_ref.version,
            status: metadata.status,
        }
    }

    pub fn from_metadata(metadata: &WorkspaceApiKeyMetadata) -> (r: Self)
        ensures
            r == WorkspaceCredentialVerifier::of(*metadata),
            r.api_key_id == metadata.api_key_id,
            r.secret_ref_id == metadata.secret_ref.secret_ref_id,
            r.version == metadata.secret_ref.version,
            r.status == metadata.status,
    {
        WorkspaceCredentialVerifier {
            api_key_id: metadata.api_key_id.clone(),
            secret_ref_id: metadata.secret_ref.secret_ref_id.clone(),
            version: metadata.secret_ref.version,
            status: metadata.status,
        }
    }
}

/// One member of a workspace joined with the user's global record.
#[derive(Debug, PartialEq, Eq)]
pub struct WorkspaceMemberView {
    pub membership_id: WorkspaceMembershipId,
    pub workspace_id: WorkspaceId,
    pub user_id: UserId,
    pub workspace_role: WorkspaceRole,
    pub global_role: GlobalUserRole,
    pub user_status: UserStatus,
    pub email: UserEmail,
    pub display_name: DisplayName,
}

impl Clone for WorkspaceMemberView {
    fn clone(&self) -> (r: Self)
        ensures
            r == *self,
    {
        WorkspaceMemberView {
            membership_id: self.membership_id.clone(),
            workspace_id: self.workspace_id.clone(),
            user_id: self.user_id.clone(),
            workspace_role: self.workspace_role,
            global_role: self.global_role,
            user_status: self.user_status,
            email: self.email.clone(),
            display_name: self.display_name.clone(),
        }
    }
}

impl WorkspaceMemberView {
    /// The view of a membership with the given id, workspace and role held by `user`.
    pub open spec fn of(
        membership_id: WorkspaceMembershipId,
        workspace_id: WorkspaceId,
        user: User,
        workspace_role: WorkspaceRole,
    ) -> WorkspaceMemberView {
        WorkspaceMemberView {
            membership_id,
            workspace_id,
            user_id: user@.id,
            workspace_role,
            global_role: user@.role,
            user_status: user@.status,
            email: user@.profile@.email,
            display_name: user@.profile@.display_name,
        }
    }

    pub fn new(
        membership_id: WorkspaceMembershipId,
        workspace_id: WorkspaceId,
        user: &User,
        workspace_role: WorkspaceRole,
    ) -> (r: Self)
        ensures
            r == WorkspaceMemberView::of(membership_id, workspace_id, *user, workspace_role),
    {
        WorkspaceMemberView {
            membership_id,
            workspace_id,
            user_id: user.id().clone(),
            workspace_role,
            global_role: user.role(),
            user_status: user.status(),
            email: user.profile().email().clone(),
            display_name: user.profile().display_name().clone(),
        }
    }

    /// The text `"<workspace id>:<user id>"` that names the membership of a user in a workspace.
    pub open spec fn membership_key(workspace_id: Seq<char>, user_id: Seq<char>) -> Seq<char> {
        workspace_id + ":"@ + user_id
    }

    /// The view of `user` in the workspace, under the membership id
    /// `"<workspace id>:<user id>"`.
    pub fn from_parts(user: &User, workspace_role: WorkspaceRole, workspace_id: WorkspaceId) -> (r: Self)
        ensures
            r.membership_id@ == WorkspaceMemberView::membership_key(workspace_id@, user@.id@),
            r == WorkspaceMemberView::of(r.membership_id, workspace_id, *user, workspace_role),
    {
        let key = workspace_id.as_str().to_owned().concat(":").concat(user.id().as_str());
        WorkspaceMemberView::new(WorkspaceMembershipId::new(key.as_str()), workspace_id, user, workspace_role)
    }
}

/// Snapshot exported from the workspace domain for sync-oriented boundaries:
/// the canonical workspace state together with the secret-backed metadata
/// that downstream synchronization needs.
#[derive(Debug, PartialEq, Eq)]
pub struct WorkspaceSyncPayload {
    pub workspace_id: WorkspaceId,
    pub status: WorkspaceStatus,
    pub last_updated: WorkspaceLastUpdated,
    pub policy: WorkspacePolicy,
    pub default_room_policy: DefaultRoomPolicy,
    pub credential_verifiers: Vec<WorkspaceCredentialVerifier>,
}

/// A summary tells the workspace it summarizes as it is: its id, name,
/// slug, status and last update.
pub proof fn lemma_summary_reports_workspace(workspace: Workspace)
    ensures
        WorkspaceSummary::of(workspace).workspace_id == workspace@.id,
        WorkspaceSummary::of(workspace).name == workspace@.name,
        WorkspaceSummary::of(workspace).slug == workspace@.slug,
        WorkspaceSummary::of(workspace).status == workspace@.status,
        WorkspaceSummary::of(workspace).last_updated == workspace@.last_updated,
{
}

/// A credential verifier tells its key as the metadata describes it: the
/// key, its secret reference and version, and its status (a revoked key
/// stays revoked).
pub proof fn lemma_verifier_reports_key(metadata: WorkspaceApiKeyMetadata)
    ensures
        WorkspaceCredentialVerifier::of(metadata).api_key_id == metadata.api_key_id,
        WorkspaceCredentialVerifier::of(metadata).secret_ref_id == metadata.secret_ref.secret_ref_id,
        WorkspaceCredentialVerifier::of(metadata).version == metadata.secret_ref.version,
        WorkspaceCredentialVerifier::of(metadata).status == metadata.status,
{
}

} // verus!
