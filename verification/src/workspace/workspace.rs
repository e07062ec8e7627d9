//! The workspace aggregate.

use vstd::prelude::*;
use crate::workspace::credentials::WorkspaceSigningProfile;
use crate::workspace::ids::WorkspaceId;
use crate::workspace::policy::WorkspacePolicy;
use crate::workspace::status::WorkspaceStatus;
use crate::workspace::timestamp::{ordinary_instant, rfc3339_millis_text, WorkspaceLastUpdated};
use crate::workspace::views::{DefaultRoomPolicy, WorkspaceName, WorkspaceSlug, WorkspaceUpdate};

verus! {

/// The fields of a workspace.
pub struct WorkspaceModel {
    pub id: WorkspaceId,
    pub name: WorkspaceName,
    pub slug: WorkspaceSlug,
    pub status: WorkspaceStatus,
    pub policy: WorkspacePolicy,
    pub default_room_policy: DefaultRoomPolicy,
    pub last_updated: WorkspaceLastUpdated,
    pub signing_profile: WorkspaceSigningProfile,
}

/// The canonical record of one workspace: identity, lifecycle status,
/// policies, last update and active signing profile.
#[derive(Debug, PartialEq, Eq)]
pub struct Workspace {
    id: WorkspaceId,
    name: WorkspaceName,
    slug: WorkspaceSlug,
    status: WorkspaceStatus,
    policy: WorkspacePolicy,
    default_room_policy: DefaultRoomPolicy,
    last_updated: WorkspaceLastUpdated,
    signing_profile: WorkspaceSigningProfile,
}

impl View for Workspace {
    type V = WorkspaceModel;

    closed spec fn view(&self) -> WorkspaceModel {
        WorkspaceModel {
            id: self.id,
            name: self.name,
            slug: self.slug,
            status: self.status,
            policy: self.policy,
            default_room_policy: self.default_room_policy,
            last_updated: self.last_updated,
            signing_profile: self.signing_profile,
        }
    }
}

impl Clone for Workspace {
    fn clone(&self) -> (r: Self)
        ensures
            r == *self,
    {
        Workspace {
            id: self.id.clone(),
            name: self.name.clone(),
            slug: self.slug.clone(),
            status: self.status,
            policy: self.policy,
            default_room_policy: self.default_room_policy,
            last_updated: self.last_updated,
            signing_profile: self.signing_profile.clone(),
        }
    }
}

impl Workspace {
    /// Whether `after` is `before` with its last update moved strictly forward
    /// and `fields` otherwise: the shape of every change to a workspace.
    pub open spec fn changed_to(before: WorkspaceModel, fields: WorkspaceModel, after: WorkspaceModel) -> bool {
        &&& after == (WorkspaceModel { last_updated: after.last_updated, ..fields })
        &&& after.last_updated.is_after(before.last_updated)
    }

    /// A new workspace, last updated now.
    pub fn new(
        id: WorkspaceId,
        name: WorkspaceName,
        slug: WorkspaceSlug,
        status: WorkspaceStatus,
        policy: WorkspacePolicy,
        default_room_policy: DefaultRoomPolicy,
        signing_profile: WorkspaceSigningProfile,
    ) -> (r: Self)
        ensures
            r@ == (WorkspaceModel {
                id,
                name,
                slug,
                status,
                policy,
                default_room_policy,
                last_updated: r@.last_updated,
                signing_profile,
            }),
            0 <= r@.last_updated@.0,
            r@.last_updated@.1 < 1_000_000_000,
            rfc3339_millis_text(r@.last_updated@.0, r@.last_updated@.1) is Some,
            ordinary_instant(r@.last_updated@.0, r@.last_updated@.1) ==> r@.last_updated.advance_defined(),
    {
        Workspace {
            id,
            name,
            slug,
            status,
            policy,
            default_room_policy,
            last_updated: WorkspaceLastUpdated::now(),
            signing_profile,
        }
    }

    /// A workspace rebuilt from stored state, keeping its stored last update.
    pub fn rehydrate(
        id: WorkspaceId,
        name: WorkspaceName,
        slug: WorkspaceSlug,
        status: WorkspaceStatus,
        policy: WorkspacePolicy,
        default_room_policy: DefaultRoomPolicy,
        last_updated: WorkspaceLastUpdated,
        signing_profile: WorkspaceSigningProfile,
    ) -> (r: Self)
        ensures
            r@ == (WorkspaceModel {
                id,
                name,
                slug,
                status,
                policy,
                default_room_policy,
                last_updated,
                signing_profile,
            }),
    {
        Workspace { id, name, slug, status, policy, default_room_policy, last_updated, signing_profile }
    }

    pub fn id(&self) -> (r: &WorkspaceId)
        ensures
            *r == self@.id,
    {
        &self.id
    }

    pub fn status(&self) -> (r: WorkspaceStatus)
        ensures
            r == self@.status,
    {
        self.status
    }

    pub fn name(&self) -> (r: &WorkspaceName)
        ensures
            *r == self@.name,
    {
        &self.name
    }

    pub fn slug(&self) -> (r: &WorkspaceSlug)
        ensures
            *r == self@.slug,
    {
        &self.slug
    }

    pub fn policy(&self) -> (r: &WorkspacePolicy)
        ensures
            *r == self@.policy,
    {
        &self.policy
    }

    pub fn default_room_policy(&self) -> (r: &DefaultRoomPolicy)
        ensures
            *r == self@.default_room_policy,
    {
        &self.default_room_policy
    }

    pub fn last_updated(&self) -> (r: WorkspaceLastUpdated)
        ensures
            r == self@.last_updated,
    {
        self.last_updated
    }

    pub fn signing_profile(&self) -> (r: &WorkspaceSigningProfile)
        ensures
            *r == self@.signing_profile,
    {
        &self.signing_profile
    }

    pub fn activate(&mut self)
        requires
            old(self)@.last_updated.advance_defined(),
        ensures
            Workspace::changed_to(
                old(self)@,
                WorkspaceModel { status: WorkspaceStatus::Active, ..old(self)@ },
                final(self)@,
            ),
    {
        self.status = WorkspaceStatus::Active;
        self.bump_last_updated();
    }

    pub fn suspend(&mut self)
        requires
            old(self)@.last_updated.advance_defined(),
        ensures
            Workspace::changed_to(
                old(self)@,
                WorkspaceModel { status: WorkspaceStatus::Suspended, ..old(self)@ },
                final(self)@,
            ),
    {
        self.status = WorkspaceStatus::Suspended;
        self.bump_last_updated();
    }

    pub fn disable(&mut self)
        requires
            old(self)@.last_updated.advance_defined(),
        ensures
            Workspace::changed_to(
                old(self)@,
                WorkspaceModel { status: WorkspaceStatus::Disabled, ..old(self)@ },
                final(self)@,
            ),
    {
        self.status = WorkspaceStatus::Disabled;
        self.bump_last_updated();
    }

    pub fn rotate_signing_profile(&mut self, signing_profile: WorkspaceSigningProfile)
        requires
            old(self)@.last_updated.advance_defined(),
        ensures
            Workspace::changed_to(
                old(self)@,
                WorkspaceModel { signing_profile, ..old(self)@ },
                final(self)@,
            ),
    {
        self.signing_profile = signing_profile;
        self.bump_last_updated();
    }

    pub fn update_default_room_policy(&mut self, default_room_policy: DefaultRoomPolicy)
        requires
            old(self)@.last_updated.advance_defined(),
        ensures
            Workspace::changed_to(
                old(self)@,
                WorkspaceModel { default_room_policy, ..old(self)@ },
                final(self)@,
            ),
    {
        self.default_room_policy = default_room_policy;
        self.bump_last_updated();
    }

    /// Replaces name, status and room policy; id, slug, policy and signing
    /// profile stay.
    pub fn apply_update(&mut self, update: WorkspaceUpdate)
        requires
            old(self)@.last_updated.advance_defined(),
        ensures
            Workspace::changed_to(
                old(self)@,
                WorkspaceModel {
                    name: update.name,
                    status: update.status,
                    default_room_policy: update.default_room_policy,
                    ..old(self)@
                },
                final(self)@,
            ),
    {
        self.name = update.name;
        self.status = update.status;
        self.default_room_policy = update.default_room_policy;
        self.bump_last_updated();
    }

    /// Moves the last update strictly forward.
    pub fn bump_last_updated(&mut self)
        requires
            old(self)@.last_updated.advance_defined(),
        ensures
            Workspace::changed_to(old(self)@, old(self)@, final(self)@),
    {
        self.last_updated = self.last_updated.advance();
    }
}

} // verus!
