//! Secret-backed credential records of a workspace.

use vstd::prelude::*;
use crate::workspace::ids::{WorkspaceApiKeyId, WorkspaceSecretRefId, WorkspaceSecretVersion};
use crate::workspace::timestamp::WorkspaceLastUpdated;

verus! {

/// Points at one version of a stored secret.
#[derive(Debug, PartialEq, Eq)]
pub struct WorkspaceSecretRef {
    pub secret_ref_id: WorkspaceSecretRefId,
    pub version: WorkspaceSecretVersion,
}

impl Clone for WorkspaceSecretRef {
    fn clone(&self) -> (r: Self)
        ensures
            r == *self,
    {
        WorkspaceSecretRef { secret_ref_id: self.secret_ref_id.clone(), version: self.version }
    }
}

/// Lifecycle status of a workspace credential.
#[derive(Debug, Clone, Copy, PartialEq, Eq, Structural, Hash)]
pub enum WorkspaceCredentialStatus {
    Active,
    Rotated,
    Revoked,
}

/// Metadata of one workspace API key, without its secret.
#[derive(Debug, PartialEq, Eq)]
pub struct WorkspaceApiKeyMetadata {
    pub api_key_id: WorkspaceApiKeyId,
    pub label: String,
    pub secret_ref: WorkspaceSecretRef,
    pub status: WorkspaceCredentialStatus,
    pub created_at: WorkspaceLastUpdated,
    pub rotated_at: Option<WorkspaceLastUpdated>,
}

impl Clone for WorkspaceApiKeyMetadata {
    fn clone(&self) -> (r: Self)
        ensures
            r == *self,
    {
        WorkspaceApiKeyMetadata {
            api_key_id: self.api_key_id.clone(),
            label: self.label.clone(),
            secret_ref: self.secret_ref.clone(),
            status: self.status,
            created_at: self.created_at,
            rotated_at: self.rotated_at,
        }
    }
}

/// An API key together with its plaintext secret, handed out once.
#[derive(Debug, PartialEq, Eq)]
pub struct WorkspaceApiKeySecret {
    pub api_key_id: WorkspaceApiKeyId,
    pub api_secret: String,
    pub status: WorkspaceCredentialStatus,
    pub version: WorkspaceSecretVersion,
}

impl Clone for WorkspaceApiKeySecret {
    fn clone(&self) -> (r: Self)
        ensures
            r == *self,
    {
        WorkspaceApiKeySecret {
            api_key_id: self.api_key_id.clone(),
            api_secret: self.api_secret.clone(),
            status: self.status,
            version: self.version,
        }
    }
}

/// The secret a workspace currently signs with.
#[derive(Debug, PartialEq, Eq)]
pub struct WorkspaceSigningProfile {
    pub active_secret_ref: WorkspaceSecretRef,
}

impl Clone for WorkspaceSigningProfile {
    fn clone(&self) -> (r: Self)
        ensures
            r == *self,
    {
        WorkspaceSigningProfile { active_secret_ref: self.active_secret_ref.clone() }
    }
}

} // verus!
