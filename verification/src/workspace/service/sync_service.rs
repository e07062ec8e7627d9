//! Builds sync-export payloads from typed workspace and secret-store contracts.

use vstd::prelude::*;
use crate::workspace::credentials::WorkspaceApiKeyMetadata;
use crate::workspace::errors::WorkspaceResult;
use crate::workspace::ids::WorkspaceId;
use crate::workspace::permissions::{WorkspaceReadPermission, WorkspacesReadPermission};
use crate::workspace::ports::{SecretStore, WorkspaceRepository};
use crate::workspace::views::{WorkspaceCredentialVerifier, WorkspaceSyncPayload};
use crate::workspace::workspace::Workspace;

verus! {

/// Whether `payload` exports `workspace` with one verifier per API key, in order.
pub open spec fn exports(
    payload: WorkspaceSyncPayload,
    workspace: Workspace,
    api_keys: Seq<WorkspaceApiKeyMetadata>,
) -> bool {
    &&& payload.workspace_id == workspace@.id
    &&& payload.status == workspace@.status
    &&& payload.last_updated == workspace@.last_updated
    &&& payload.policy == workspace@.policy
    &&& payload.default_room_policy == workspace@.default_room_policy
    &&& payload.credential_verifiers@.len() == api_keys.len()
    &&& forall|i: int|
        0 <= i < api_keys.len() ==> #[trigger] payload.credential_verifiers@[i]
            == WorkspaceCredentialVerifier::of(api_keys[i])
}

/// Builds the sync payload of a workspace and its API keys.
pub fn build_sync_payload(workspace: &Workspace, api_keys: &Vec<WorkspaceApiKeyMetadata>) -> (r:
    WorkspaceSyncPayload)
    ensures
        exports(r, *workspace, api_keys@),
{
    let mut verifiers: Vec<WorkspaceCredentialVerifier> = Vec::new();
    let mut i: usize = 0;
    while i < api_keys.len()
        invariant
            i <= api_keys@.len(),
            verifiers@.len() == i,
            forall|j: int|
                0 <= j < i ==> #[trigger] verifiers@[j] == WorkspaceCredentialVerifier::of(
                    api_keys@[j],
                ),
        decreases api_keys@.len() - i,
    {
        verifiers.push(WorkspaceCredentialVerifier::from_metadata(&api_keys[i]));
        i = i + 1;
    }
    WorkspaceSyncPayload {
        workspace_id: workspace.id().clone(),
        status: workspace.status(),
        last_updated: workspace.last_updated(),
        policy: *workspace.policy(),
        default_room_policy: *workspace.default_room_policy(),
        credential_verifiers: verifiers,
    }
}

/// Builds sync-export payloads: the canonical workspace aggregate composed
/// with the secret store's API-key metadata.
#[derive(Debug)]
pub struct WorkspaceSyncService<WorkspaceRepo, SecretStorePort> {
    pub workspace_repository: WorkspaceRepo,
    pub secret_store: SecretStorePort,
}

impl<WorkspaceRepo: WorkspaceRepository, SecretStorePort: SecretStore> WorkspaceSyncService<
    WorkspaceRepo,
    SecretStorePort,
> {
    /// Creates the service from the repository and secret-store contracts it orchestrates.
    pub fn new(workspace_repository: WorkspaceRepo, secret_store: SecretStorePort) -> (r: Self)
        ensures
            r.workspace_repository == workspace_repository,
            r.secret_store == secret_store,
    {
        WorkspaceSyncService { workspace_repository, secret_store }
    }

    /// Exports the workspace sync payload for one workspace-scoped read request.
    pub fn export_sync_payload(&self, permission: &WorkspaceReadPermission) -> (r: WorkspaceResult<
        WorkspaceSyncPayload,
    >)
        ensures
            r matches Ok(payload) ==> payload.workspace_id@ == permission@@ && exists|
                workspace: Workspace,
                api_keys: Vec<WorkspaceApiKeyMetadata>,
            |
                #[trigger] self.workspace_repository.gets(permission@, Ok(workspace))
                    && #[trigger] self.secret_store.lists_keys(permission@, Ok(api_keys))
                    && exports(payload, workspace, api_keys@),
    {
        self.export_sync_payload_internal(permission.workspace_id())
    }

    /// Exports the workspace sync payload for a machine-to-machine read request.
    pub fn export_sync_payload_with_workspaces_read_permission(
        &self,
        permission: &WorkspacesReadPermission,
        workspace_id: &WorkspaceId,
    ) -> (r: WorkspaceResult<WorkspaceSyncPayload>)
        ensures
            r matches Ok(payload) ==> payload.workspace_id@ == workspace_id@ && exists|
                workspace: Workspace,
                api_keys: Vec<WorkspaceApiKeyMetadata>,
            |
                #[trigger] self.workspace_repository.gets(*workspace_id, Ok(workspace))
                    && #[trigger] self.secret_store.lists_keys(*workspace_id, Ok(api_keys))
                    && exports(payload, workspace, api_keys@),
    {
        self.export_sync_payload_internal(workspace_id)
    }

    fn export_sync_payload_internal(&self, workspace_id: &WorkspaceId) -> (r: WorkspaceResult<
        WorkspaceSyncPayload,
    >)
        ensures
            r matches Ok(payload) ==> payload.workspace_id@ == workspace_id@ && exists|
                workspace: Workspace,
                api_keys: Vec<WorkspaceApiKeyMetadata>,
            |
                #[trigger] self.workspace_repository.gets(*workspace_id, Ok(workspace))
                    && #[trigger] self.secret_store.lists_keys(*workspace_id, Ok(api_keys))
                    && exports(payload, workspace, api_keys@),
    {
        let workspace = self.workspace_repository.get(workspace_id)?;
        let api_keys = self.secret_store.list_api_keys(workspace_id)?;
        let payload = build_sync_payload(&workspace, &api_keys);
        assert(self.workspace_repository.gets(*workspace_id, Ok(workspace)));
        assert(self.secret_store.lists_keys(*workspace_id, Ok(api_keys)));
        Ok(payload)
    }
}

/// An exported payload carries, for each API key in order, its key, its
/// secret reference, version and status, and the workspace's own status.
pub proof fn lemma_export_carries_key_status(
    payload: WorkspaceSyncPayload,
    workspace: Workspace,
    api_keys: Seq<WorkspaceApiKeyMetadata>,
)
    requires
        exports(payload, workspace, api_keys),
    ensures
        payload.status == workspace@.status,
        payload.credential_verifiers@.len() == api_keys.len(),
        forall|i: int|
            0 <= i < api_keys.len() ==> {
                &&& (#[trigger] payload.credential_verifiers@[i]).status == api_keys[i].status
                &&& payload.credential_verifiers@[i].api_key_id == api_keys[i].api_key_id
                &&& payload.credential_verifiers@[i].secret_ref_id == api_keys[i].secret_ref.secret_ref_id
                &&& payload.credential_verifiers@[i].version == api_keys[i].secret_ref.version
            },
{
}

} // verus!
