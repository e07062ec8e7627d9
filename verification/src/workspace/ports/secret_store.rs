use vstd::prelude::*;
use crate::workspace::credentials::{WorkspaceApiKeyMetadata, WorkspaceApiKeySecret};
use crate::workspace::errors::WorkspaceResult;
use crate::workspace::ids::{WorkspaceApiKeyId, WorkspaceId};

verus! {

/// Abstracts sensitive workspace credential metadata behind an intent-level
/// boundary.
///
/// Use this port when a workspace use case needs API-key metadata tied to
/// secrets, but should remain isolated from infrastructure details such as
/// vault vendors, encryption schemes, or secret transport.
///
/// Each `spec fn` here says which answers a store may give to a call; an
/// implementation defines them from what it holds.
pub trait SecretStore: Send + Sync {
    /// Whether `r` is an answer this store may give when asked for the API keys of `workspace_id`.
    spec fn lists_keys(&self, workspace_id: WorkspaceId, r: WorkspaceResult<Vec<WorkspaceApiKeyMetadata>>) -> bool;

    /// Whether `r` is an answer this store may give when asked to create a key labelled `label`.
    spec fn creates_key(&self, workspace_id: WorkspaceId, label: &str, r: WorkspaceResult<WorkspaceApiKeySecret>) -> bool;

    /// Whether `r` is an answer this store may give when asked to rotate the secret of `api_key_id`.
    spec fn rotates_key(
        &self,
        workspace_id: WorkspaceId,
        api_key_id: WorkspaceApiKeyId,
        r: WorkspaceResult<WorkspaceApiKeySecret>,
    ) -> bool;

    /// Returns API-key metadata in storage-defined order; callers must not rely on sorting.
    fn list_api_keys(&self, workspace_id: &WorkspaceId) -> (r: WorkspaceResult<
        Vec<WorkspaceApiKeyMetadata>,
    >)
        ensures
            self.lists_keys(*workspace_id, r),
    ;

    /// Creates a new API key and returns the stored metadata with plaintext secret once.
    fn create_api_key(&self, workspace_id: &WorkspaceId, label: &str) -> (r: WorkspaceResult<
        WorkspaceApiKeySecret,
    >)
        ensures
            self.creates_key(*workspace_id, label, r),
    ;

    /// Rotates an API key secret and returns updated metadata with the new plaintext once.
    fn rotate_api_key_secret(
        &self,
        workspace_id: &WorkspaceId,
        api_key_id: &WorkspaceApiKeyId,
    ) -> (r: WorkspaceResult<WorkspaceApiKeySecret>)
        ensures
            self.rotates_key(*workspace_id, *api_key_id, r),
    ;
}

} // verus!
