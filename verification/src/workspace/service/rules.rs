//! The decisions the workspace services take on what the ports hand back.
//!
//! Each function here takes the values a port returned as arguments and says
//! exactly what the service does with them.

use vstd::prelude::*;
use crate::workspace::errors::{WorkspaceError, WorkspaceResult};
use crate::workspace::ids::{UserId, WorkspaceId, WorkspaceMembershipId};
use crate::workspace::membership::WorkspaceMembership;
use crate::workspace::permissions::WorkspaceWritePermission;
use crate::workspace::role::WorkspaceRole;
use crate::workspace::user::User;
use crate::workspace::user_types::{GlobalUserRole, UserStatus};
use crate::workspace::views::{WorkspaceMemberView, WorkspaceSummary};
use crate::workspace::workspace::Workspace;

verus! {

/// The number of owner memberships in `memberships`.
pub open spec fn owner_count(memberships: Seq<WorkspaceMembership>) -> nat
    decreases memberships.len(),
{
    if memberships.len() == 0 {
        0
    } else {
        owner_count(memberships.drop_last()) + if memberships.last()@.role
            == WorkspaceRole::Owner {
            1nat
        } else {
            0nat
        }
    }
}

/// Counts the owner memberships.
pub fn count_owners(memberships: &Vec<WorkspaceMembership>) -> (r: usize)
    ensures
        r == owner_count(memberships@),
        r == memberships@.filter(|m: WorkspaceMembership| m@.role == WorkspaceRole::Owner).len(),
{
    proof {
        lemma_owner_count_counts_owner_memberships(memberships@);
    }
    let mut count: usize = 0;
    let mut i: usize = 0;
    while i < memberships.len()
        invariant
            i <= memberships@.len(),
            count == owner_count(memberships@.take(i as int)),
            count <= i,
        decreases memberships@.len() - i,
    {
        assert(memberships@.take(i as int + 1).drop_last() =~= memberships@.take(i as int));
        if memberships[i].is_owner() {
            count = count + 1;
        }
        i = i + 1;
    }
    assert(memberships@.take(memberships@.len() as int) =~= memberships@);
    count
}

/// What a write permission scoped to one workspace says of a target workspace.
pub open spec fn write_target_check(
    permission_workspace_id: WorkspaceId,
    target_workspace_id: WorkspaceId,
) -> WorkspaceResult<()> {
    if permission_workspace_id@ == target_workspace_id@ {
        Ok(())
    } else {
        Err(
            WorkspaceError::WorkspacePermissionMismatch {
                permission_workspace_id,
                target_workspace_id,
            },
        )
    }
}

/// A write permission may only write the workspace it is scoped to.
pub fn ensure_write_target(
    permission: &WorkspaceWritePermission,
    target_workspace_id: &WorkspaceId,
) -> (r: WorkspaceResult<()>)
    ensures
        r == write_target_check(permission@, *target_workspace_id),
{
    if permission.workspace_id() == target_workspace_id {
        Ok(())
    } else {
        Err(
            WorkspaceError::WorkspacePermissionMismatch {
                permission_workspace_id: permission.workspace_id().clone(),
                target_workspace_id: target_workspace_id.clone(),
            },
        )
    }
}

/// Whether the actor may mutate the workspace given the actor's own
/// membership there, as the membership port answered it (`lookup`). Inactive
/// actors are denied and super admins are allowed without a lookup.
pub open spec fn mutation_authorization(
    actor: User,
    workspace_id: WorkspaceId,
    lookup: WorkspaceResult<WorkspaceMembership>,
) -> WorkspaceResult<()> {
    if actor@.status != UserStatus::Active {
        Err(WorkspaceError::PermissionDenied { user_id: actor@.id, workspace_id })
    } else if actor@.role == GlobalUserRole::SuperAdmin {
        Ok(())
    } else {
        match lookup {
            Ok(membership) => if membership@.role == WorkspaceRole::Owner {
                Ok(())
            } else {
                Err(WorkspaceError::PermissionDenied { user_id: actor@.id, workspace_id })
            },
            Err(error) => Err(error),
        }
    }
}

/// Whether an actor needs a membership lookup before `mutation_authorization` decides.
pub open spec fn authorization_needs_lookup(actor: User) -> bool {
    actor@.status == UserStatus::Active && actor@.role != GlobalUserRole::SuperAdmin
}

/// Decides a mutation from the membership lookup; see `mutation_authorization`.
pub fn decide_mutation_authorization(
    actor: &User,
    workspace_id: &WorkspaceId,
    lookup: WorkspaceResult<WorkspaceMembership>,
) -> (r: WorkspaceResult<()>)
    ensures
        r == mutation_authorization(*actor, *workspace_id, lookup),
        actor@.status == UserStatus::Active && actor@.role == GlobalUserRole::SuperAdmin ==> r
            == Ok::<(), WorkspaceError>(()),
        actor@.status != UserStatus::Active ==> r == Err::<(), WorkspaceError>(
            WorkspaceError::PermissionDenied { user_id: actor@.id, workspace_id: *workspace_id },
        ),
{
    if actor.status() != UserStatus::Active {
        return Err(
            WorkspaceError::PermissionDenied {
                user_id: actor.id().clone(),
                workspace_id: workspace_id.clone(),
            },
        );
    }
    if actor.role() == GlobalUserRole::SuperAdmin {
        return Ok(());
    }
    match lookup {
        Ok(membership) => if membership.role() == WorkspaceRole::Owner {
            Ok(())
        } else {
            Err(
                WorkspaceError::PermissionDenied {
                    user_id: actor.id().clone(),
                    workspace_id: workspace_id.clone(),
                },
            )
        },
        Err(error) => Err(error),
    }
}

/// Whether `role` may be granted by the actor: only a super admin grants ownership.
pub open spec fn promotion_check(
    actor: User,
    target_user_id: UserId,
    workspace_id: WorkspaceId,
    role: WorkspaceRole,
) -> WorkspaceResult<()> {
    if role == WorkspaceRole::Owner && actor@.role != GlobalUserRole::SuperAdmin {
        Err(
            WorkspaceError::OwnerPromotionRequiresSuperAdmin {
                actor_user_id: actor@.id,
                target_user_id,
                workspace_id,
            },
        )
    } else {
        Ok(())
    }
}

/// Decides whether the actor may grant `role`; see `promotion_check`.
pub fn check_promotion(
    actor: &User,
    target_user_id: &UserId,
    workspace_id: &WorkspaceId,
    role: WorkspaceRole,
) -> (r: WorkspaceResult<()>)
    ensures
        r == promotion_check(*actor, *target_user_id, *workspace_id, role),
        actor@.role == GlobalUserRole::SuperAdmin ==> r == Ok::<(), WorkspaceError>(()),
        role == WorkspaceRole::Member ==> r == Ok::<(), WorkspaceError>(()),
        role == WorkspaceRole::Owner && actor@.role != GlobalUserRole::SuperAdmin ==> r is Err,
{
    if role == WorkspaceRole::Owner && actor.role() != GlobalUserRole::SuperAdmin {
        Err(
            WorkspaceError::OwnerPromotionRequiresSuperAdmin {
                actor_user_id: actor.id().clone(),
                target_user_id: target_user_id.clone(),
                workspace_id: workspace_id.clone(),
            },
        )
    } else {
        Ok(())
    }
}

/// Whether an owner may stop being an owner (removal, or demotion when
/// `demotion` holds), given how many owners the workspace has: never the last
/// owner, and otherwise only by a super admin.
pub open spec fn owner_exit_check(
    actor: User,
    target_user_id: UserId,
    workspace_id: WorkspaceId,
    owners: nat,
    demotion: bool,
) -> WorkspaceResult<()> {
    if owners == 1 {
        if demotion {
            Err(WorkspaceError::LastOwnerDemotionDenied { workspace_id, user_id: target_user_id })
        } else {
            Err(WorkspaceError::LastOwnerRemovalDenied { workspace_id, user_id: target_user_id })
        }
    } else if actor@.role != GlobalUserRole::SuperAdmin {
        Err(
            WorkspaceError::OwnerPeerMutationDenied {
                actor_user_id: actor@.id,
                target_user_id,
                workspace_id,
            },
        )
    } else {
        Ok(())
    }
}

/// Decides whether an owner may leave the owners; see `owner_exit_check`.
pub fn check_owner_exit(
    actor: &User,
    target_user_id: &UserId,
    workspace_id: &WorkspaceId,
    owners: usize,
    demotion: bool,
) -> (r: WorkspaceResult<()>)
    ensures
        r == owner_exit_check(*actor, *target_user_id, *workspace_id, owners as nat, demotion),
{
    if owners == 1 {
        if demotion {
            Err(
                WorkspaceError::LastOwnerDemotionDenied {
                    workspace_id: workspace_id.clone(),
                    user_id: target_user_id.clone(),
                },
            )
        } else {
            Err(
                WorkspaceError::LastOwnerRemovalDenied {
                    workspace_id: workspace_id.clone(),
                    user_id: target_user_id.clone(),
                },
            )
        }
    } else if actor.role() != GlobalUserRole::SuperAdmin {
        Err(
            WorkspaceError::OwnerPeerMutationDenied {
                actor_user_id: actor.id().clone(),
                target_user_id: target_user_id.clone(),
                workspace_id: workspace_id.clone(),
            },
        )
    } else {
        Ok(())
    }
}

/// Whether the workspace's last update can move one millisecond forward
/// within the supported calendar range, which every change to it needs.
pub open spec fn advance_check(workspace: Workspace) -> WorkspaceResult<()> {
    if workspace@.last_updated.advance_defined() {
        Ok(())
    } else {
        Err(WorkspaceError::LastUpdatedOutOfRange { workspace_id: workspace@.id })
    }
}

/// Decides whether the workspace can be changed; see `advance_check`.
pub fn ensure_can_advance(workspace: &Workspace) -> (r: WorkspaceResult<()>)
    ensures
        r == advance_check(*workspace),
{
    if workspace.last_updated().can_advance() {
        Ok(())
    } else {
        Err(WorkspaceError::LastUpdatedOutOfRange { workspace_id: workspace.id().clone() })
    }
}

/// Whether a membership that holds `current` leaves the owners when it
/// takes the role `next` (`None`: the membership is removed). Only then is
/// the owner count asked for and `owner_exit_check` applied.
pub open spec fn leaves_owners(current: WorkspaceRole, next: Option<WorkspaceRole>) -> bool {
    current == WorkspaceRole::Owner && next != Some(WorkspaceRole::Owner)
}

/// Decides whether the owner-exit check applies; see `leaves_owners`.
pub fn owner_exit_required(current: WorkspaceRole, next: Option<WorkspaceRole>) -> (r: bool)
    ensures
        r == leaves_owners(current, next),
{
    match current {
        WorkspaceRole::Owner => match next {
            Some(WorkspaceRole::Owner) => false,
            _ => true,
        },
        WorkspaceRole::Member => false,
    }
}

/// Whether the actor is shown every workspace, rather than the workspaces
/// of the actor's own memberships: exactly for a super admin.
pub open spec fn sees_all_workspaces(actor: User) -> bool {
    actor@.role == GlobalUserRole::SuperAdmin
}

/// Decides which listing the actor gets; see `sees_all_workspaces`.
pub fn lists_all_workspaces(actor: &User) -> (r: bool)
    ensures
        r == sees_all_workspaces(*actor),
{
    actor.role() == GlobalUserRole::SuperAdmin
}

/// What the existing-membership lookup says about adding a membership: an
/// existing membership is a duplicate, a missing one lets the add go on, and
/// any other failure is passed on.
pub open spec fn duplicate_check(
    membership: WorkspaceMembership,
    existing: WorkspaceResult<WorkspaceMembership>,
) -> WorkspaceResult<()> {
    match existing {
        Ok(_) => Err(
            WorkspaceError::MemberAlreadyExists {
                workspace_id: membership@.workspace_id,
                user_id: membership@.user_id,
            },
        ),
        Err(WorkspaceError::MembershipNotFoundForWorkspaceUser { .. }) => Ok(()),
        Err(error) => Err(error),
    }
}

/// Decides from the existing-membership lookup; see `duplicate_check`.
pub fn check_duplicate(
    membership: &WorkspaceMembership,
    existing: WorkspaceResult<WorkspaceMembership>,
) -> (r: WorkspaceResult<()>)
    ensures
        r == duplicate_check(*membership, existing),
{
    match existing {
        Ok(_) => Err(
            WorkspaceError::MemberAlreadyExists {
                workspace_id: membership.workspace_id().clone(),
                user_id: membership.user_id().clone(),
            },
        ),
        Err(WorkspaceError::MembershipNotFoundForWorkspaceUser { .. }) => Ok(()),
        Err(error) => Err(error),
    }
}

/// The position of the last user in `users` whose id is `user_id`, or -1.
pub open spec fn last_user_index(users: Seq<User>, user_id: Seq<char>) -> int
    decreases users.len(),
{
    if users.len() == 0 {
        -1
    } else if users.last()@.id@ == user_id {
        users.len() - 1
    } else {
        last_user_index(users.drop_last(), user_id)
    }
}

proof fn lemma_last_user_index_bounds(users: Seq<User>, user_id: Seq<char>)
    ensures
        -1 <= last_user_index(users, user_id) < users.len(),
        last_user_index(users, user_id) >= 0 ==> users[last_user_index(users, user_id)]@.id@
            == user_id,
    decreases users.len(),
{
    if users.len() > 0 && users.last()@.id@ != user_id {
        lemma_last_user_index_bounds(users.drop_last(), user_id);
    }
}

/// Finds the last user with the given id.
pub fn find_last_user(users: &Vec<User>, user_id: &UserId) -> (r: Option<usize>)
    ensures
        r is None <==> last_user_index(users@, user_id@) < 0,
        r matches Some(k) ==> k as int == last_user_index(users@, user_id@),
{
    proof {
        lemma_last_user_index_bounds(users@, user_id@);
    }
    let mut j: usize = users.len();
    assert(users@.take(j as int) =~= users@);
    while j > 0
        invariant
            j <= users@.len(),
            last_user_index(users@, user_id@) == last_user_index(users@.take(j as int), user_id@),
        decreases j,
    {
        let ghost prefix = users@.take(j as int);
        assert(prefix.drop_last() =~= users@.take(j as int - 1));
        if users[j - 1].id() == user_id {
            return Some(j - 1);
        }
        j = j - 1;
    }
    None
}

/// The member view of `membership` joined with the user whose id it names
/// (the last such user in `users`), as `list_members` builds it.
pub open spec fn member_view_of(membership: WorkspaceMembership, users: Seq<User>) -> WorkspaceMemberView {
    WorkspaceMemberView::of(
        membership@.id,
        membership@.workspace_id,
        users[last_user_index(users, membership@.user_id@)],
        membership@.role,
    )
}

/// Whether some user in `users` has the id that `membership` names.
pub open spec fn has_user(membership: WorkspaceMembership, users: Seq<User>) -> bool {
    last_user_index(users, membership@.user_id@) >= 0
}

/// Whether `views` are `memberships` joined with `users`, in membership order.
pub open spec fn joins(
    views: Seq<WorkspaceMemberView>,
    memberships: Seq<WorkspaceMembership>,
    users: Seq<User>,
) -> bool {
    &&& views.len() == memberships.len()
    &&& forall|i: int| 0 <= i < memberships.len() ==> has_user(#[trigger] memberships[i], users)
    &&& forall|i: int| 0 <= i < memberships.len() ==> #[trigger] views[i] == member_view_of(memberships[i], users)
}

/// Joins each membership with its user, in membership order. Fails with
/// `UserNotFound` for the first membership whose user is missing.
pub fn join_members(memberships: Vec<WorkspaceMembership>, users: &Vec<User>) -> (r: WorkspaceResult<
    Vec<WorkspaceMemberView>,
>)
    ensures
        match r {
            Ok(views) => joins(views@, memberships@, users@),
            Err(error) => exists|i: int|
                0 <= i < memberships@.len() && !has_user(#[trigger] memberships@[i], users@)
                    && (forall|j: int| 0 <= j < i ==> has_user(#[trigger] memberships@[j], users@))
                    && error == (WorkspaceError::UserNotFound {
                    user_id: memberships@[i]@.user_id,
                }),
        },
{
    let mut views: Vec<WorkspaceMemberView> = Vec::new();
    let mut i: usize = 0;
    while i < memberships.len()
        invariant
            i <= memberships@.len(),
            views@.len() == i,
            forall|j: int| 0 <= j < i ==> has_user(#[trigger] memberships@[j], users@),
            forall|j: int| 0 <= j < i ==> #[trigger] views@[j] == member_view_of(memberships@[j], users@),
        decreases memberships@.len() - i,
    {
        let membership = &memberships[i];
        proof {
            lemma_last_user_index_bounds(users@, membership@.user_id@);
        }
        match find_last_user(users, membership.user_id()) {
            Some(k) => {
                views.push(
                    WorkspaceMemberView::new(
                        membership.id().clone(),
                        membership.workspace_id().clone(),
                        &users[k],
                        membership.role(),
                    ),
                );
            },
            None => {
                return Err(WorkspaceError::UserNotFound { user_id: membership.user_id().clone() });
            },
        }
        i = i + 1;
    }
    Ok(views)
}

/// The workspace of each membership, in order.
pub fn membership_workspace_ids(memberships: &Vec<WorkspaceMembership>) -> (r: Vec<WorkspaceId>)
    ensures
        r@.len() == memberships@.len(),
        forall|i: int| 0 <= i < r@.len() ==> #[trigger] r@[i] == memberships@[i]@.workspace_id,
{
    let mut ids: Vec<WorkspaceId> = Vec::new();
    let mut i: usize = 0;
    while i < memberships.len()
        invariant
            i <= memberships@.len(),
            ids@.len() == i,
            forall|j: int| 0 <= j < i ==> #[trigger] ids@[j] == memberships@[j]@.workspace_id,
        decreases memberships@.len() - i,
    {
        ids.push(memberships[i].workspace_id().clone());
        i = i + 1;
    }
    ids
}

/// The user of each membership, in order.
pub fn membership_user_ids(memberships: &Vec<WorkspaceMembership>) -> (r: Vec<UserId>)
    ensures
        r@.len() == memberships@.len(),
        forall|i: int| 0 <= i < r@.len() ==> #[trigger] r@[i] == memberships@[i]@.user_id,
{
    let mut ids: Vec<UserId> = Vec::new();
    let mut i: usize = 0;
    while i < memberships.len()
        invariant
            i <= memberships@.len(),
            ids@.len() == i,
            forall|j: int| 0 <= j < i ==> #[trigger] ids@[j] == memberships@[j]@.user_id,
        decreases memberships@.len() - i,
    {
        ids.push(memberships[i].user_id().clone());
        i = i + 1;
    }
    ids
}

/// Whether `summaries` are the summaries of `workspaces`, in order.
pub open spec fn summarizes(summaries: Seq<WorkspaceSummary>, workspaces: Seq<Workspace>) -> bool {
    summaries.len() == workspaces.len() && forall|i: int|
        0 <= i < workspaces.len() ==> #[trigger] summaries[i] == WorkspaceSummary::of(workspaces[i])
}

/// The summary of each workspace, in order.
pub fn summaries_of(workspaces: &Vec<Workspace>) -> (r: Vec<WorkspaceSummary>)
    ensures
        summarizes(r@, workspaces@),
{
    let mut summaries: Vec<WorkspaceSummary> = Vec::new();
    let mut i: usize = 0;
    while i < workspaces.len()
        invariant
            i <= workspaces@.len(),
            summaries@.len() == i,
            forall|j: int| 0 <= j < i ==> #[trigger] summaries@[j] == WorkspaceSummary::of(workspaces@[j]),
        decreases workspaces@.len() - i,
    {
        summaries.push(WorkspaceSummary::from_workspace(&workspaces[i]));
        i = i + 1;
    }
    summaries
}

/// The id `"<workspace id>:<user id>"` of the owner membership that bootstraps a workspace.
pub fn bootstrap_membership_id(workspace: &Workspace, user_id: &UserId) -> (r: WorkspaceMembershipId)
    ensures
        r@ == WorkspaceMemberView::membership_key(workspace@.id@, user_id@),
{
    let key = workspace.id().as_str().to_owned().concat(":").concat(user_id.as_str());
    WorkspaceMembershipId::new(key.as_str())
}

/// A mutation is authorized only for an active actor who is a super admin or,
/// by the membership lookup, an owner of the workspace.
pub proof fn lemma_mutation_needs_active_owner_or_super_admin(
    actor: User,
    workspace_id: WorkspaceId,
    lookup: WorkspaceResult<WorkspaceMembership>,
)
    ensures
        mutation_authorization(actor, workspace_id, lookup) is Ok ==> {
            &&& actor@.status == UserStatus::Active
            &&& actor@.role == GlobalUserRole::SuperAdmin || (lookup matches Ok(m) && m@.role
                == WorkspaceRole::Owner)
        },
        actor@.status != UserStatus::Active ==> mutation_authorization(actor, workspace_id, lookup)
            == Err::<(), WorkspaceError>(
            WorkspaceError::PermissionDenied { user_id: actor@.id, workspace_id },
        ),
{
}

/// The last owner of a workspace can be neither removed nor demoted, and
/// any other owner leaves the owners only by a super admin's hand.
pub proof fn lemma_last_owner_is_kept(
    actor: User,
    target_user_id: UserId,
    workspace_id: WorkspaceId,
    owners: nat,
    demotion: bool,
)
    ensures
        owners == 1 ==> owner_exit_check(actor, target_user_id, workspace_id, owners, demotion) is Err,
        owner_exit_check(actor, target_user_id, workspace_id, owners, demotion) is Ok ==> owners != 1
            && actor@.role == GlobalUserRole::SuperAdmin,
{
}

/// Only a super admin can grant the owner role.
pub proof fn lemma_only_super_admin_grants_ownership(
    actor: User,
    target_user_id: UserId,
    workspace_id: WorkspaceId,
    role: WorkspaceRole,
)
    ensures
        promotion_check(actor, target_user_id, workspace_id, role) is Ok && role
            == WorkspaceRole::Owner ==> actor@.role == GlobalUserRole::SuperAdmin,
        role == WorkspaceRole::Member ==> promotion_check(actor, target_user_id, workspace_id, role)
            is Ok,
{
}

/// The owners counted are exactly the memberships whose role is Owner:
/// members do not count.
pub proof fn lemma_owner_count_counts_owner_memberships(memberships: Seq<WorkspaceMembership>)
    ensures
        owner_count(memberships) == memberships.filter(
            |m: WorkspaceMembership| m@.role == WorkspaceRole::Owner,
        ).len(),
    decreases memberships.len(),
{
    reveal(Seq::filter);
    if memberships.len() > 0 {
        lemma_owner_count_counts_owner_memberships(memberships.drop_last());
    }
}

/// Adding a member's membership to a list leaves its owner count as it was;
/// adding an owner's raises it by one.
pub proof fn lemma_owner_count_of_added_membership(
    memberships: Seq<WorkspaceMembership>,
    added: WorkspaceMembership,
)
    ensures
        added@.role == WorkspaceRole::Member ==> owner_count(memberships.push(added)) == owner_count(
            memberships,
        ),
        added@.role == WorkspaceRole::Owner ==> owner_count(memberships.push(added)) == owner_count(
            memberships,
        ) + 1,
{
    assert(memberships.push(added).drop_last() =~= memberships);
}

/// When the membership port lists exactly one membership whose role is
/// Owner (with any members besides), that owner can be neither removed nor
/// demoted, whoever asks.
pub proof fn lemma_sole_listed_owner_is_kept(
    actor: User,
    target_user_id: UserId,
    workspace_id: WorkspaceId,
    memberships: Seq<WorkspaceMembership>,
    demotion: bool,
)
    requires
        memberships.filter(|m: WorkspaceMembership| m@.role == WorkspaceRole::Owner).len() == 1,
    ensures
        owner_exit_check(actor, target_user_id, workspace_id, owner_count(memberships), demotion) == if demotion {
            Err::<(), WorkspaceError>(WorkspaceError::LastOwnerDemotionDenied { workspace_id, user_id: target_user_id })
        } else {
            Err::<(), WorkspaceError>(WorkspaceError::LastOwnerRemovalDenied { workspace_id, user_id: target_user_id })
        },
{
    lemma_owner_count_counts_owner_memberships(memberships);
}

/// An active super admin may mutate any workspace, whatever the membership
/// port would answer, and is not looked up at all.
pub proof fn lemma_active_super_admin_is_authorized(
    actor: User,
    workspace_id: WorkspaceId,
    lookup: WorkspaceResult<WorkspaceMembership>,
)
    requires
        actor@.status == UserStatus::Active,
        actor@.role == GlobalUserRole::SuperAdmin,
    ensures
        mutation_authorization(actor, workspace_id, lookup) == Ok::<(), WorkspaceError>(()),
        !authorization_needs_lookup(actor),
{
}

/// A super admin may grant any role, ownership included; anyone may grant
/// the member role.
pub proof fn lemma_super_admin_grants_any_role(
    actor: User,
    target_user_id: UserId,
    workspace_id: WorkspaceId,
    role: WorkspaceRole,
)
    ensures
        actor@.role == GlobalUserRole::SuperAdmin ==> promotion_check(actor, target_user_id, workspace_id, role)
            == Ok::<(), WorkspaceError>(()),
        role == WorkspaceRole::Member ==> promotion_check(actor, target_user_id, workspace_id, role)
            == Ok::<(), WorkspaceError>(()),
{
}

/// The summaries listed tell each workspace's id, name, slug, status and
/// last update, in order.
pub proof fn lemma_listed_summaries_carry_status(
    summaries: Seq<WorkspaceSummary>,
    workspaces: Seq<Workspace>,
)
    requires
        summarizes(summaries, workspaces),
    ensures
        summaries.len() == workspaces.len(),
        forall|i: int|
            0 <= i < workspaces.len() ==> {
                &&& (#[trigger] summaries[i]).status == workspaces[i]@.status
                &&& summaries[i].workspace_id == workspaces[i]@.id
                &&& summaries[i].name == workspaces[i]@.name
                &&& summaries[i].slug == workspaces[i]@.slug
                &&& summaries[i].last_updated == workspaces[i]@.last_updated
            },
{
}

} // verus!
