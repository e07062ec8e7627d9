//! Orchestrates workspace-domain use cases over typed ports.

use vstd::prelude::*;
use crate::workspace::credentials::{WorkspaceApiKeyMetadata, WorkspaceApiKeySecret};
use crate::workspace::errors::{WorkspaceError, WorkspaceResult};
use crate::workspace::guards::WorkspaceCreatorGuard;
use crate::workspace::ids::{UserId, WorkspaceApiKeyId, WorkspaceId};
use crate::workspace::membership::{MembershipModel, WorkspaceMembership};
use crate::workspace::permissions::{WorkspaceReadPermission, WorkspaceWritePermission};
use crate::workspace::ports::{
    MembershipRepository, SecretStore, UserRepository, WorkspaceRepository,
};
use crate::workspace::role::WorkspaceRole;
use crate::workspace::service::rules::{
    authorization_needs_lookup, bootstrap_membership_id, check_duplicate, check_owner_exit,
    check_promotion, count_owners, decide_mutation_authorization, ensure_write_target,
    join_members, ensure_can_advance, joins, leaves_owners, lists_all_workspaces, owner_exit_required, sees_all_workspaces, membership_user_ids, membership_workspace_ids, mutation_authorization, owner_exit_check,
    owner_count, promotion_check, summaries_of, summarizes, write_target_check,
};
use crate::workspace::user::User;
use crate::workspace::user_types::{GlobalUserRole, UserStatus};
use crate::workspace::views::{
    WorkspaceDetail, WorkspaceMemberView, WorkspaceSummary, WorkspaceUpdate,
};
use crate::workspace::workspace::{Workspace, WorkspaceModel};

verus! {

/// Whether `r` is what authorizing the actor's mutation of the workspace
/// gives: for an actor who needs no lookup (inactive, or a super admin) the
/// decision on the actor alone; otherwise the decision on an answer the
/// membership port gave to the lookup of the actor's membership.
pub open spec fn authorization_answer<MembershipRepo: MembershipRepository>(
    membership_repository: MembershipRepo,
    actor: User,
    workspace_id: WorkspaceId,
    r: WorkspaceResult<()>,
) -> bool {
    if authorization_needs_lookup(actor) {
        exists|lookup: WorkspaceResult<WorkspaceMembership>|
            #[trigger] membership_repository.finds(workspace_id, actor@.id, lookup) && r
                == mutation_authorization(actor, workspace_id, lookup)
    } else {
        r == mutation_authorization(
            actor,
            workspace_id,
            Err(WorkspaceError::UserNotFound { user_id: actor@.id }),
        )
    }
}

/// Whether an actor may mutate a workspace: the actor is active, and a super
/// admin or (by the membership port's answer) an owner of the workspace.
pub fn authorize_workspace_mutation<MembershipRepo: MembershipRepository>(
    membership_repository: &MembershipRepo,
    workspace_id: &WorkspaceId,
    actor: &User,
) -> (r: WorkspaceResult<()>)
    ensures
        authorization_answer(*membership_repository, *actor, *workspace_id, r),
        actor@.status == UserStatus::Active && actor@.role == GlobalUserRole::SuperAdmin ==> r
            == Ok::<(), WorkspaceError>(()),
{
    if actor.status() != UserStatus::Active || actor.role() == GlobalUserRole::SuperAdmin {
        return decide_mutation_authorization(
            actor,
            workspace_id,
            Err(WorkspaceError::UserNotFound { user_id: actor.id().clone() }),
        );
    }
    let lookup = membership_repository.find_for_workspace_user(workspace_id, actor.id());
    let ghost answer = lookup;
    let r = decide_mutation_authorization(actor, workspace_id, lookup);
    assert(membership_repository.finds(*workspace_id, actor@.id, answer));
    r
}

/// Whether `r` is what counting the owners gives: the owner count of a list
/// the membership port gave for the workspace, or the port's error.
pub open spec fn owner_count_answer<MembershipRepo: MembershipRepository>(
    membership_repository: MembershipRepo,
    workspace_id: WorkspaceId,
    r: WorkspaceResult<usize>,
) -> bool {
    match r {
        Ok(n) => exists|memberships: Vec<WorkspaceMembership>|
            #[trigger] membership_repository.lists_for_workspace(workspace_id, Ok(memberships))
                && n == owner_count(memberships@),
        Err(e) => membership_repository.lists_for_workspace(workspace_id, Err(e)),
    }
}

/// Counts the owners among the workspace's memberships as the membership port lists them.
pub fn count_workspace_owners<MembershipRepo: MembershipRepository>(
    membership_repository: &MembershipRepo,
    workspace_id: &WorkspaceId,
) -> (r: WorkspaceResult<usize>)
    ensures
        owner_count_answer(*membership_repository, *workspace_id, r),
{
    let listed = membership_repository.list_for_workspace(workspace_id);
    match listed {
        Ok(memberships) => {
            let n = count_owners(&memberships);
            assert(membership_repository.lists_for_workspace(*workspace_id, Ok(memberships)));
            Ok(n)
        },
        Err(e) => Err(e),
    }
}

/// Whether the workspace repository gave `before` for `workspace_id` and
/// was then told to save `after`, which it answered with success.
pub open spec fn read_then_saved<WorkspaceRepo: WorkspaceRepository>(
    workspace_repository: WorkspaceRepo,
    workspace_id: WorkspaceId,
    before: Workspace,
    after: Workspace,
) -> bool {
    &&& workspace_repository.gets(workspace_id, Ok(before))
    &&& workspace_repository.saves(after, Ok(()))
}

/// Whether the owner-exit rule lets a membership holding `current` take
/// `next` (`None`: be removed): when it leaves the owners, the membership
/// port listed the workspace's memberships and `owner_exit_check` passed on
/// their owner count.
pub open spec fn owner_exit_allowed<MembershipRepo: MembershipRepository>(
    membership_repository: MembershipRepo,
    actor: User,
    target_user_id: UserId,
    workspace_id: WorkspaceId,
    current: WorkspaceRole,
    next: Option<WorkspaceRole>,
) -> bool {
    leaves_owners(current, next) ==> exists|memberships: Vec<WorkspaceMembership>|
        #[trigger] membership_repository.lists_for_workspace(workspace_id, Ok(memberships))
            && owner_exit_check(actor, target_user_id, workspace_id, owner_count(memberships@), next is Some)
            is Ok
}

/// Orchestrates workspace-domain use cases over typed ports.
#[derive(Debug)]
pub struct WorkspaceService<WorkspaceRepo, UserRepo, MembershipRepo, SecretStorePort> {
    pub workspace_repository: WorkspaceRepo,
    pub user_repository: UserRepo,
    pub membership_repository: MembershipRepo,
    pub secret_store: SecretStorePort,
}

impl<
    WorkspaceRepo: WorkspaceRepository,
    UserRepo: UserRepository,
    MembershipRepo: MembershipRepository,
    SecretStorePort: SecretStore,
> WorkspaceService<WorkspaceRepo, UserRepo, MembershipRepo, SecretStorePort> {
    pub fn new(
        workspace_repository: WorkspaceRepo,
        user_repository: UserRepo,
        membership_repository: MembershipRepo,
        secret_store: SecretStorePort,
    ) -> (r: Self)
        ensures
            r.workspace_repository == workspace_repository,
            r.user_repository == user_repository,
            r.membership_repository == membership_repository,
            r.secret_store == secret_store,
    {
        WorkspaceService { workspace_repository, user_repository, membership_repository, secret_store }
    }

    /// Creates the workspace with the guard's actor as its first owner.
    pub fn create_workspace(
        &self,
        guard: &WorkspaceCreatorGuard,
        workspace: &Workspace,
    ) -> (r: WorkspaceResult<WorkspaceMembership>)
        ensures
            r matches Ok(membership) ==> membership@ == (MembershipModel {
                id: membership@.id,
                workspace_id: workspace@.id,
                user_id: guard@,
                role: WorkspaceRole::Owner,
            }) && membership@.id@ == WorkspaceMemberView::membership_key(
                workspace@.id@,
                guard@@,
            ) && self.workspace_repository.creates_with_owner(*workspace, membership, Ok(())),
    {
        let membership = WorkspaceMembership::new(
            bootstrap_membership_id(workspace, guard.actor_user_id()),
            workspace.id().clone(),
            guard.actor_user_id().clone(),
            WorkspaceRole::Owner,
        );
        self.workspace_repository.create_with_owner(workspace, &membership)?;
        Ok(membership)
    }

    /// Lists every workspace for a super admin, and the workspaces of the
    /// actor's memberships for anyone else.
    pub fn list_workspaces_visible_to_actor(&self, actor: &User) -> (r: WorkspaceResult<
        Vec<WorkspaceSummary>,
    >)
        ensures
            r matches Ok(summaries) ==> sees_all_workspaces(*actor) ==> exists|workspaces: Vec<Workspace>|
                #[trigger] self.workspace_repository.lists_all(Ok(workspaces)) && summarizes(
                    summaries@,
                    workspaces@,
                ),
            r matches Ok(summaries) ==> !sees_all_workspaces(*actor) ==> exists|
                memberships: Vec<WorkspaceMembership>,
                workspace_ids: &[WorkspaceId],
                workspaces: Vec<Workspace>,
            |
                #[trigger] self.membership_repository.lists_for_user(actor@.id, Ok(memberships))
                    && #[trigger] self.workspace_repository.lists_for_ids(workspace_ids, Ok(workspaces))
                    && workspace_ids@.len() == memberships@.len() && (forall|i: int|
                    0 <= i < workspace_ids@.len() ==> #[trigger] workspace_ids@[i]
                        == memberships@[i]@.workspace_id) && summarizes(summaries@, workspaces@),
    {
        if lists_all_workspaces(actor) {
            let workspaces = self.workspace_repository.list_all()?;
            let summaries = summaries_of(&workspaces);
            assert(self.workspace_repository.lists_all(Ok(workspaces)));
            Ok(summaries)
        } else {
            let memberships = self.membership_repository.list_for_user(actor.id())?;
            let workspace_ids = membership_workspace_ids(&memberships);
            let ids = workspace_ids.as_slice();
            let workspaces = self.workspace_repository.list_for_ids(ids)?;
            let summaries = summaries_of(&workspaces);
            assert(self.membership_repository.lists_for_user(actor@.id, Ok(memberships)));
            assert(self.workspace_repository.lists_for_ids(ids, Ok(workspaces)));
            Ok(summaries)
        }
    }

    pub fn read_workspace(&self, permission: &WorkspaceReadPermission) -> (r: WorkspaceResult<Workspace>)
        ensures
            r matches Ok(workspace) ==> workspace@.id@ == permission@@,
            self.workspace_repository.gets(permission@, r),
    {
        self.workspace_repository.get(permission.workspace_id())
    }

    pub fn get_workspace_detail(&self, permission: &WorkspaceReadPermission) -> (r: WorkspaceResult<
        WorkspaceDetail,
    >)
        ensures
            r matches Ok(detail) ==> detail.workspace_id@ == permission@@ && exists|
                workspace: Workspace,
            |
                #[trigger] self.workspace_repository.gets(permission@, Ok(workspace)) && detail
                    == WorkspaceDetail::of(workspace),
    {
        let workspace = self.read_workspace(permission)?;
        Ok(WorkspaceDetail::from_workspace(&workspace))
    }

    /// Lists the workspace's API keys once the workspace is known to exist.
    pub fn list_credentials(&self, permission: &WorkspaceReadPermission) -> (r: WorkspaceResult<
        Vec<WorkspaceApiKeyMetadata>,
    >)
        ensures
            r is Ok ==> exists|workspace: Workspace|
                #[trigger] self.workspace_repository.gets(permission@, Ok(workspace)),
            r is Ok ==> self.secret_store.lists_keys(permission@, r),
    {
        let workspace = self.workspace_repository.get(permission.workspace_id())?;
        assert(self.workspace_repository.gets(permission@, Ok(workspace)));
        self.secret_store.list_api_keys(permission.workspace_id())
    }

    /// Creates an API key after authorizing the actor, checking the write
    /// target and moving the workspace's last update forward.
    pub fn create_credential(
        &self,
        permission: &WorkspaceWritePermission,
        actor: &User,
        label: &str,
    ) -> (r: WorkspaceResult<WorkspaceApiKeySecret>)
        ensures
            r is Ok ==> authorization_answer(self.membership_repository, *actor, permission@, Ok(())),
            r is Ok ==> exists|before: Workspace, after: Workspace|
                #[trigger] read_then_saved(self.workspace_repository, permission@, before, after)
                    && Workspace::changed_to(before@, before@, after@),
            r is Ok ==> self.secret_store.creates_key(permission@, label, r),
    {
        let mut workspace = self.workspace_repository.get(permission.workspace_id())?;
        let ghost before = workspace;
        authorize_workspace_mutation(&self.membership_repository, permission.workspace_id(), actor)?;
        ensure_write_target(permission, workspace.id())?;
        ensure_can_advance(&workspace)?;
        workspace.bump_last_updated();
        self.workspace_repository.save(&workspace)?;
        assert(read_then_saved(self.workspace_repository, permission@, before, workspace));
        self.secret_store.create_api_key(permission.workspace_id(), label)
    }

    /// Rotates an API key secret after the same checks as `create_credential`.
    pub fn rotate_secret(
        &self,
        permission: &WorkspaceWritePermission,
        actor: &User,
        api_key_id: &WorkspaceApiKeyId,
    ) -> (r: WorkspaceResult<WorkspaceApiKeySecret>)
        ensures
            r is Ok ==> authorization_answer(self.membership_repository, *actor, permission@, Ok(())),
            r is Ok ==> exists|before: Workspace, after: Workspace|
                #[trigger] read_then_saved(self.workspace_repository, permission@, before, after)
                    && Workspace::changed_to(before@, before@, after@),
            r is Ok ==> self.secret_store.rotates_key(permission@, *api_key_id, r),
    {
        let mut workspace = self.workspace_repository.get(permission.workspace_id())?;
        let ghost before = workspace;
        authorize_workspace_mutation(&self.membership_repository, permission.workspace_id(), actor)?;
        ensure_write_target(permission, workspace.id())?;
        ensure_can_advance(&workspace)?;
        workspace.bump_last_updated();
        self.workspace_repository.save(&workspace)?;
        assert(read_then_saved(self.workspace_repository, permission@, before, workspace));
        self.secret_store.rotate_api_key_secret(permission.workspace_id(), api_key_id)
    }

    /// Applies an owner's update to the workspace and returns the saved detail.
    pub fn update_workspace(
        &self,
        permission: &WorkspaceWritePermission,
        actor: &User,
        update: WorkspaceUpdate,
    ) -> (r: WorkspaceResult<WorkspaceDetail>)
        ensures
            actor@.status != UserStatus::Active ==> r == Err::<WorkspaceDetail, WorkspaceError>(
                WorkspaceError::PermissionDenied { user_id: actor@.id, workspace_id: permission@ },
            ),
            exists|authorization: WorkspaceResult<()>|
                #[trigger] authorization_answer(self.membership_repository, *actor, permission@, authorization)
                    && (authorization matches Err(e) ==> r == Err::<WorkspaceDetail, WorkspaceError>(e))
                    && (r is Ok ==> authorization is Ok),
            r matches Ok(detail) ==> {
                &&& detail.workspace_id@ == permission@@
                &&& exists|before: Workspace, after: Workspace|
                    #[trigger] read_then_saved(self.workspace_repository, permission@, before, after)
                        && Workspace::changed_to(
                        before@,
                        WorkspaceModel {
                            name: update.name,
                            status: update.status,
                            default_room_policy: update.default_room_policy,
                            ..before@
                        },
                        after@,
                    ) && detail == WorkspaceDetail::of(after)
            },
    {
        let authorization = authorize_workspace_mutation(&self.membership_repository, permission.workspace_id(), actor);
        assert(authorization_answer(self.membership_repository, *actor, permission@, authorization));
        authorization?;
        let mut workspace = self.workspace_repository.get(permission.workspace_id())?;
        let ghost before = workspace;
        ensure_write_target(permission, workspace.id())?;
        ensure_can_advance(&workspace)?;
        workspace.apply_update(update);
        self.workspace_repository.save(&workspace)?;
        assert(read_then_saved(self.workspace_repository, permission@, before, workspace));
        Ok(WorkspaceDetail::from_workspace(&workspace))
    }

    /// Reads one member's membership and user record.
    pub fn read_member_user(&self, permission: &WorkspaceReadPermission, user_id: &UserId) -> (r:
        WorkspaceResult<(WorkspaceMembership, User)>)
        ensures
            r matches Ok((membership, user)) ==> {
                &&& membership@.workspace_id@ == permission@@
                &&& membership@.user_id@ == user_id@
                &&& user@.id@ == user_id@
                &&& self.membership_repository.finds(permission@, *user_id, Ok(membership))
                &&& self.user_repository.gets_user(*user_id, Ok(user))
            },
    {
        self.workspace_repository.get(permission.workspace_id())?;
        let membership = self.membership_repository.find_for_workspace_user(
            permission.workspace_id(),
            user_id,
        )?;
        let user = self.user_repository.get(user_id)?;
        Ok((membership, user))
    }

    /// Lists the workspace's members joined with their user records, in the
    /// membership port's order.
    pub fn list_members(&self, permission: &WorkspaceReadPermission) -> (r: WorkspaceResult<
        Vec<WorkspaceMemberView>,
    >)
        ensures
            r matches Ok(views) ==> forall|i: int|
                0 <= i < views@.len() ==> #[trigger] views@[i].workspace_id@ == permission@@,
            r matches Ok(views) ==> exists|
                memberships: Vec<WorkspaceMembership>,
                user_ids: &[UserId],
                users: Vec<User>,
            |
                #[trigger] self.membership_repository.lists_for_workspace(permission@, Ok(memberships))
                    && #[trigger] self.user_repository.lists_by_ids(user_ids, Ok(users))
                    && user_ids@.len() == memberships@.len() && (forall|i: int|
                    0 <= i < user_ids@.len() ==> #[trigger] user_ids@[i] == memberships@[i]@.user_id)
                    && joins(views@, memberships@, users@),
    {
        self.workspace_repository.get(permission.workspace_id())?;
        let memberships = self.membership_repository.list_for_workspace(permission.workspace_id())?;
        let user_ids = membership_user_ids(&memberships);
        let ids = user_ids.as_slice();
        let users = self.user_repository.list_by_ids(ids)?;
        let ghost listed = memberships@;
        let ghost listed_vec = memberships;
        assert(self.membership_repository.lists_for_workspace(permission@, Ok(listed_vec)));
        assert(self.user_repository.lists_by_ids(ids, Ok(users)));
        let views = join_members(memberships, &users)?;
        assert forall|i: int| 0 <= i < views@.len() implies #[trigger] views@[i].workspace_id@
            == permission@@ by {
            assert(views@[i].workspace_id == listed[i]@.workspace_id);
        }
        Ok(views)
    }

    /// Adds a membership: the actor must be authorized, the membership must
    /// belong to the permitted workspace, only a super admin may add an owner,
    /// and the user must not be a member already.
    pub fn add_member(
        &self,
        permission: &WorkspaceWritePermission,
        actor: &User,
        membership: &WorkspaceMembership,
    ) -> (r: WorkspaceResult<WorkspaceMemberView>)
        ensures
            r matches Ok(view) ==> {
                &&& actor@.status == UserStatus::Active
                &&& membership@.workspace_id@ == permission@@
                &&& membership@.role == WorkspaceRole::Owner ==> actor@.role
                    == GlobalUserRole::SuperAdmin
                &&& view.membership_id == membership@.id
                &&& view.workspace_id == membership@.workspace_id
                &&& view.user_id@ == membership@.user_id@
                &&& view.workspace_role == membership@.role
                &&& authorization_answer(self.membership_repository, *actor, permission@, Ok(()))
                &&& exists|missing: WorkspaceError, user: User|
                    #[trigger] self.membership_repository.finds(
                        membership@.workspace_id,
                        membership@.user_id,
                        Err(missing),
                    ) && missing is MembershipNotFoundForWorkspaceUser
                        && #[trigger] self.user_repository.gets_user(membership@.user_id, Ok(user))
                        && user@.id@ == membership@.user_id@ && view == WorkspaceMemberView::of(
                        membership@.id,
                        membership@.workspace_id,
                        user,
                        membership@.role,
                    )
                &&& self.membership_repository.saves_with_bump(*membership, Ok(()))
            },
    {
        self.workspace_repository.get(permission.workspace_id())?;
        authorize_workspace_mutation(&self.membership_repository, permission.workspace_id(), actor)?;
        ensure_write_target(permission, membership.workspace_id())?;
        check_promotion(actor, membership.user_id(), membership.workspace_id(), membership.role())?;
        let existing = self.membership_repository.find_for_workspace_user(
            membership.workspace_id(),
            membership.user_id(),
        );
        let ghost answer = existing;
        check_duplicate(membership, existing)?;
        let user = self.user_repository.get(membership.user_id())?;
        self.membership_repository.save_with_workspace_bump(membership)?;
        assert(self.membership_repository.finds(membership@.workspace_id, membership@.user_id, answer));
        assert(self.user_repository.gets_user(membership@.user_id, Ok(user)));
        Ok(
            WorkspaceMemberView::new(
                membership.id().clone(),
                membership.workspace_id().clone(),
                &user,
                membership.role(),
            ),
        )
    }

    /// Removes a member; an owner may only be removed by a super admin and
    /// never when the owner is the last one.
    pub fn remove_member(
        &self,
        permission: &WorkspaceWritePermission,
        actor: &User,
        target_user_id: &UserId,
    ) -> (r: WorkspaceResult<()>)
        ensures
            r is Ok ==> actor@.status == UserStatus::Active,
            r is Ok ==> authorization_answer(self.membership_repository, *actor, permission@, Ok(())),
            r is Ok ==> exists|target: WorkspaceMembership|
                #[trigger] self.membership_repository.finds(permission@, *target_user_id, Ok(target))
                    && owner_exit_allowed(
                    self.membership_repository,
                    *actor,
                    *target_user_id,
                    permission@,
                    target@.role,
                    None,
                ) && self.membership_repository.removes_with_bump(permission@, target@.id, Ok(())),
    {
        self.workspace_repository.get(permission.workspace_id())?;
        authorize_workspace_mutation(&self.membership_repository, permission.workspace_id(), actor)?;
        let membership = self.membership_repository.find_for_workspace_user(
            permission.workspace_id(),
            target_user_id,
        )?;
        if owner_exit_required(membership.role(), None) {
            let owners = count_workspace_owners(&self.membership_repository, permission.workspace_id())?;
            check_owner_exit(actor, target_user_id, permission.workspace_id(), owners, false)?;
        }
        self.membership_repository.remove_with_workspace_bump(
            permission.workspace_id(),
            membership.id(),
        )?;
        assert(self.membership_repository.finds(permission@, *target_user_id, Ok(membership)));
        Ok(())
    }

    /// Changes a member's role; only a super admin grants ownership, and an
    /// owner may only be demoted by a super admin and never when last.
    pub fn change_member_role(
        &self,
        permission: &WorkspaceWritePermission,
        actor: &User,
        target_user_id: &UserId,
        role: WorkspaceRole,
    ) -> (r: WorkspaceResult<WorkspaceMemberView>)
        ensures
            r matches Ok(view) ==> {
                &&& actor@.status == UserStatus::Active
                &&& role == WorkspaceRole::Owner ==> actor@.role == GlobalUserRole::SuperAdmin
                &&& view.workspace_role == role
                &&& view.workspace_id@ == permission@@
                &&& view.user_id@ == target_user_id@
                &&& authorization_answer(self.membership_repository, *actor, permission@, Ok(()))
                &&& exists|previous: WorkspaceMembership, saved: WorkspaceMembership, user: User|
                    #[trigger] self.membership_repository.finds(permission@, *target_user_id, Ok(previous))
                        && #[trigger] self.membership_repository.saves_with_bump(saved, Ok(()))
                        && #[trigger] self.user_repository.gets_user(*target_user_id, Ok(user))
                        && saved@ == (MembershipModel { role, ..previous@ }) && owner_exit_allowed(
                        self.membership_repository,
                        *actor,
                        *target_user_id,
                        permission@,
                        previous@.role,
                        Some(role),
                    ) && user@.id@ == target_user_id@ && view == WorkspaceMemberView::of(
                        previous@.id,
                        previous@.workspace_id,
                        user,
                        role,
                    )
            },
    {
        self.workspace_repository.get(permission.workspace_id())?;
        authorize_workspace_mutation(&self.membership_repository, permission.workspace_id(), actor)?;
        let mut membership = self.membership_repository.find_for_workspace_user(
            permission.workspace_id(),
            target_user_id,
        )?;
        let ghost previous = membership;
        check_promotion(actor, target_user_id, permission.workspace_id(), role)?;
        if owner_exit_required(membership.role(), Some(role)) {
            let owners = count_workspace_owners(&self.membership_repository, permission.workspace_id())?;
            check_owner_exit(actor, target_user_id, permission.workspace_id(), owners, true)?;
        }
        let user = self.user_repository.get(target_user_id)?;
        membership.change_role(role);
        self.membership_repository.save_with_workspace_bump(&membership)?;
        assert(self.membership_repository.finds(permission@, *target_user_id, Ok(previous)));
        assert(self.membership_repository.saves_with_bump(membership, Ok(())));
        assert(self.user_repository.gets_user(*target_user_id, Ok(user)));
        Ok(
            WorkspaceMemberView::new(
                membership.id().clone(),
                membership.workspace_id().clone(),
                &user,
                membership.role(),
            ),
        )
    }

    /// Saves a workspace within the permitted workspace only.
    pub fn save_workspace(&self, permission: &WorkspaceWritePermission, workspace: &Workspace) -> (r:
        WorkspaceResult<()>)
        ensures
            write_target_check(permission@, workspace@.id) is Err ==> r == write_target_check(
                permission@,
                workspace@.id,
            ),
            write_target_check(permission@, workspace@.id) is Ok ==> self.workspace_repository.saves(
                *workspace,
                r,
            ),
    {
        ensure_write_target(permission, workspace.id())?;
        self.workspace_repository.save(workspace)
    }

    /// Saves a membership within the permitted workspace only.
    pub fn save_membership(
        &self,
        permission: &WorkspaceWritePermission,
        membership: &WorkspaceMembership,
    ) -> (r: WorkspaceResult<()>)
        ensures
            write_target_check(permission@, membership@.workspace_id) is Err ==> r
                == write_target_check(permission@, membership@.workspace_id),
            write_target_check(permission@, membership@.workspace_id) is Ok
                ==> self.membership_repository.saves_with_bump(*membership, r),
    {
        ensure_write_target(permission, membership.workspace_id())?;
        self.membership_repository.save_with_workspace_bump(membership)
    }
}

} // verus!
