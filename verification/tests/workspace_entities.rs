use omeet::workspace::credentials::{WorkspaceSecretRef, WorkspaceSigningProfile};
use omeet::workspace::errors::WorkspaceError;
use omeet::workspace::ids::{
    UserId, WorkspaceId, WorkspaceMembershipId, WorkspaceSecretRefId, WorkspaceSecretVersion,
};
use omeet::workspace::membership::WorkspaceMembership;
use omeet::workspace::permissions::{WorkspaceReadPermission, WorkspaceWritePermission};
use omeet::workspace::policy::{GuestAccessPolicy, WorkspacePolicy};
use omeet::workspace::role::WorkspaceRole;
use omeet::workspace::status::WorkspaceStatus;
use omeet::workspace::timestamp::WorkspaceLastUpdated;
use omeet::workspace::user::{User, UserProfile};
use omeet::workspace::user_types::{DisplayName, GlobalUserRole, UserEmail, UserStatus};
use omeet::workspace::views::{
    DefaultRoomPolicy, WorkspaceMemberView, WorkspaceName, WorkspaceSlug, WorkspaceUpdate,
};
use omeet::workspace::workspace::Workspace;

#[test]
fn membership_construction_keeps_workspace_role_mapping_explicit() {
    let membership = WorkspaceMembership::new(
        WorkspaceMembershipId::new("membership_alpha"),
        WorkspaceId::new("ws_alpha"),
        UserId::new("user_alpha"),
        WorkspaceRole::Member,
    );

    assert_eq!(membership.id(), &WorkspaceMembershipId::new("membership_alpha"));
    assert_eq!(membership.workspace_id(), &WorkspaceId::new("ws_alpha"));
    assert_eq!(membership.user_id(), &UserId::new("user_alpha"));
    assert_eq!(membership.role(), WorkspaceRole::Member);
}

#[test]
fn membership_role_change_replaces_stored_role() {
    let mut membership = WorkspaceMembership::new(
        WorkspaceMembershipId::new("membership_beta"),
        WorkspaceId::new("ws_beta"),
        UserId::new("user_beta"),
        WorkspaceRole::Member,
    );

    membership.change_role(WorkspaceRole::Owner);

    assert_eq!(membership.role(), WorkspaceRole::Owner);
}

#[test]
fn membership_role_change_keeps_identity_and_reports_ownership() {
    let mut membership = WorkspaceMembership::new(
        WorkspaceMembershipId::new("membership_gamma"),
        WorkspaceId::new("ws_gamma"),
        UserId::new("user_gamma"),
        WorkspaceRole::Owner,
    );
    assert!(membership.is_owner());

    membership.change_role(WorkspaceRole::Member);

    assert!(!membership.is_owner());
    assert_eq!(membership.id().as_str(), "membership_gamma");
    assert_eq!(membership.workspace_id().as_str(), "ws_gamma");
    assert_eq!(membership.user_id().as_str(), "user_gamma");
}

#[test]
fn user_construction_keeps_global_identity_role_and_profile() {
    let user = User::new(
        UserId::new("user_alpha"),
        GlobalUserRole::Member,
        UserProfile::new(UserEmail::new("alpha@example.com"), DisplayName::new("Alpha")),
    );

    assert_eq!(user.id(), &UserId::new("user_alpha"));
    assert_eq!(user.role(), GlobalUserRole::Member);
    assert_eq!(user.status(), UserStatus::Active);
    assert_eq!(user.profile().email().as_str(), "alpha@example.com");
    assert_eq!(user.profile().display_name().as_str(), "Alpha");
}

#[test]
fn user_status_transitions_stay_small_and_obvious() {
    let mut user = User::new(
        UserId::new("user_beta"),
        GlobalUserRole::SuperAdmin,
        UserProfile::new(UserEmail::new("beta@example.com"), DisplayName::new("Beta")),
    );

    user.suspend();
    assert_eq!(user.status(), UserStatus::Suspended);

    user.disable();
    assert_eq!(user.status(), UserStatus::Disabled);

    user.activate();
    assert_eq!(user.status(), UserStatus::Active);
}

fn signing_profile(secret: &str, version: u64) -> WorkspaceSigningProfile {
    WorkspaceSigningProfile {
        active_secret_ref: WorkspaceSecretRef {
            secret_ref_id: WorkspaceSecretRefId::new(secret),
            version: WorkspaceSecretVersion::new(version),
        },
    }
}

#[test]
fn workspace_construction_keeps_minimal_typed_state() {
    let workspace = Workspace::new(
        WorkspaceId::new("ws_alpha"),
        WorkspaceName::new("Workspace Alpha"),
        WorkspaceSlug::new("workspace-alpha"),
        WorkspaceStatus::Suspended,
        WorkspacePolicy { guest_access: GuestAccessPolicy::Allowed },
        DefaultRoomPolicy::new(false, 3600),
        signing_profile("secret_alpha", 1),
    );

    assert_eq!(workspace.id(), &WorkspaceId::new("ws_alpha"));
    assert_eq!(workspace.name(), &WorkspaceName::new("Workspace Alpha"));
    assert_eq!(workspace.slug(), &WorkspaceSlug::new("workspace-alpha"));
    assert_eq!(workspace.status(), WorkspaceStatus::Suspended);
    assert_eq!(workspace.policy().guest_access, GuestAccessPolicy::Allowed);
    assert_eq!(workspace.default_room_policy(), &DefaultRoomPolicy::new(false, 3600));
    assert!(workspace.last_updated() > WorkspaceLastUpdated::initial());
    assert_eq!(
        workspace.signing_profile().active_secret_ref.secret_ref_id,
        WorkspaceSecretRefId::new("secret_alpha")
    );
}

#[test]
fn workspace_status_transitions_preserve_simple_invariants() {
    let mut workspace = Workspace::new(
        WorkspaceId::new("ws_beta"),
        WorkspaceName::new("Workspace Beta"),
        WorkspaceSlug::new("workspace-beta"),
        WorkspaceStatus::Active,
        WorkspacePolicy::default(),
        DefaultRoomPolicy::new(false, 3600),
        signing_profile("secret_beta", 2),
    );

    let created_at = workspace.last_updated();

    workspace.suspend();
    assert_eq!(workspace.status(), WorkspaceStatus::Suspended);

    workspace.disable();
    assert_eq!(workspace.status(), WorkspaceStatus::Disabled);

    workspace.activate();
    assert_eq!(workspace.status(), WorkspaceStatus::Active);

    workspace.rotate_signing_profile(signing_profile("secret_beta_rotated", 3));

    assert_eq!(
        workspace.signing_profile().active_secret_ref.secret_ref_id,
        WorkspaceSecretRefId::new("secret_beta_rotated")
    );
    assert!(workspace.last_updated() > created_at);
}

#[test]
fn workspace_update_replaces_metadata_status_and_policy() {
    let mut workspace = Workspace::new(
        WorkspaceId::new("ws_gamma"),
        WorkspaceName::new("Workspace Gamma"),
        WorkspaceSlug::new("workspace-gamma"),
        WorkspaceStatus::Active,
        WorkspacePolicy::default(),
        DefaultRoomPolicy::new(false, 3600),
        signing_profile("secret_gamma", 7),
    );

    workspace.apply_update(WorkspaceUpdate::new(
        WorkspaceName::new("Workspace Gamma Updated"),
        WorkspaceStatus::Suspended,
        DefaultRoomPolicy::new(true, 1800),
    ));

    assert_eq!(workspace.name(), &WorkspaceName::new("Workspace Gamma Updated"));
    assert_eq!(workspace.slug(), &WorkspaceSlug::new("workspace-gamma"));
    assert_eq!(workspace.status(), WorkspaceStatus::Suspended);
    assert_eq!(workspace.policy().guest_access, GuestAccessPolicy::Denied);
    assert_eq!(workspace.default_room_policy(), &DefaultRoomPolicy::new(true, 1800));
}

#[test]
fn workspace_rehydrate_preserves_persisted_last_updated() {
    let last_updated = WorkspaceLastUpdated::from_rfc3339("2026-03-23T10:00:00Z")
        .expect("rfc3339 timestamp should parse");

    let workspace = Workspace::rehydrate(
        WorkspaceId::new("ws_delta"),
        WorkspaceName::new("Workspace Delta"),
        WorkspaceSlug::new("workspace-delta"),
        WorkspaceStatus::Active,
        WorkspacePolicy::default(),
        DefaultRoomPolicy::new(false, 3600),
        last_updated.clone(),
        signing_profile("secret_delta", 8),
    );

    assert_eq!(workspace.last_updated(), last_updated);
}

#[test]
fn workspace_bumps_strictly_increase_last_updated() {
    let stored = WorkspaceLastUpdated::from_rfc3339("2999-01-01T00:00:00Z").expect("parses");
    let mut workspace = Workspace::rehydrate(
        WorkspaceId::new("ws_future"),
        WorkspaceName::new("Future"),
        WorkspaceSlug::new("future"),
        WorkspaceStatus::Active,
        WorkspacePolicy::default(),
        DefaultRoomPolicy::new(false, 60),
        stored.clone(),
        signing_profile("secret_future", 1),
    );

    workspace.bump_last_updated();
    assert_eq!(workspace.last_updated().to_rfc3339(), "2999-01-01T00:00:00.001Z");
    workspace.update_default_room_policy(DefaultRoomPolicy::new(true, 30));
    assert_eq!(workspace.last_updated().to_rfc3339(), "2999-01-01T00:00:00.002Z");
    assert!(workspace.last_updated() > stored);
}

#[test]
fn typed_ids_keep_workspace_and_user_boundaries_clear() {
    let workspace_id = WorkspaceId::from("ws_123".to_owned());
    let user_id = UserId::from("user_456".to_owned());

    assert_eq!(workspace_id.to_string(), "ws_123");
    assert_eq!(user_id.to_string(), "user_456");
    assert_ne!(workspace_id.to_string(), user_id.to_string());
}

#[test]
fn baseline_roles_and_workspace_permissions_are_explicit() {
    let workspace_id = WorkspaceId::from("ws_core".to_owned());
    let read_permission = WorkspaceReadPermission::new(workspace_id.clone());
    let write_permission = WorkspaceWritePermission::new(workspace_id.clone());

    assert_ne!(GlobalUserRole::Member, GlobalUserRole::SuperAdmin);
    assert_ne!(WorkspaceRole::Owner, WorkspaceRole::Member);
    assert_eq!(read_permission.workspace_id(), &workspace_id);
    assert_eq!(write_permission.workspace_id(), &workspace_id);
}

#[test]
fn workspace_error_formats_typed_context_for_tracing() {
    let error = WorkspaceError::PermissionDenied {
        user_id: UserId::from("user_789".to_owned()),
        workspace_id: WorkspaceId::from("ws_trace".to_owned()),
    };

    assert_eq!(error.to_string(), "permission denied for user user_789 on workspace ws_trace");
}

#[test]
fn workspace_permission_mismatch_error_formats_both_workspace_ids() {
    let error = WorkspaceError::WorkspacePermissionMismatch {
        permission_workspace_id: WorkspaceId::from("ws_permission".to_owned()),
        target_workspace_id: WorkspaceId::from("ws_target".to_owned()),
    };

    assert_eq!(
        error.to_string(),
        "workspace permission mismatch: permission for ws_permission cannot write target ws_target"
    );
}

#[test]
fn workspace_error_messages_name_every_identifier() {
    let promotion = WorkspaceError::OwnerPromotionRequiresSuperAdmin {
        actor_user_id: UserId::new("actor"),
        target_user_id: UserId::new("target"),
        workspace_id: WorkspaceId::new("ws"),
    };
    assert_eq!(
        promotion.to_string(),
        "only super admin can promote user target to owner in workspace ws; actor was actor"
    );
    let peer = WorkspaceError::OwnerPeerMutationDenied {
        actor_user_id: UserId::new("a"),
        target_user_id: UserId::new("b"),
        workspace_id: WorkspaceId::new("w"),
    };
    assert_eq!(peer.to_string(), "owner a cannot mutate peer owner b in workspace w");
    let missing = WorkspaceError::WorkspaceNotFound { workspace_id: WorkspaceId::new("w") };
    assert_eq!(missing.to_string(), "workspace not found: w");
}

#[test]
fn workspace_last_updated_round_trips_as_rfc3339_timestamp() {
    let last_updated = WorkspaceLastUpdated::from_rfc3339("2026-03-23T10:00:00Z")
        .expect("rfc3339 timestamp should parse");

    assert_eq!(last_updated.to_rfc3339(), "2026-03-23T10:00:00.000Z");
    assert!(last_updated > WorkspaceLastUpdated::initial());
}

#[test]
fn workspace_last_updated_reads_offsets_and_rejects_garbage() {
    let shifted = WorkspaceLastUpdated::from_rfc3339("2026-03-23T12:00:00.250+02:00").expect("parses");
    assert_eq!(shifted.to_rfc3339(), "2026-03-23T10:00:00.250Z");
    assert!(WorkspaceLastUpdated::from_rfc3339("yesterday").is_err());
    assert_eq!(WorkspaceLastUpdated::initial().to_rfc3339(), "1970-01-01T00:00:00.000Z");
}

#[test]
fn workspace_last_updated_advance_moves_at_least_one_millisecond() {
    let stored = WorkspaceLastUpdated::from_rfc3339("2999-12-31T23:59:59.999Z").expect("parses");
    let next = stored.advance();
    assert_eq!(next.to_rfc3339(), "3000-01-01T00:00:00.000Z");
    let old = WorkspaceLastUpdated::initial();
    let now_ish = old.advance();
    assert!(now_ish > old);
    assert!(old.can_advance());
}

#[test]
fn status_and_role_texts_round_trip() {
    for status in [WorkspaceStatus::Active, WorkspaceStatus::Suspended, WorkspaceStatus::Disabled] {
        assert_eq!(status.to_string().parse::<WorkspaceStatus>(), Ok(status));
    }
    for status in [UserStatus::Active, UserStatus::Suspended, UserStatus::Disabled] {
        assert_eq!(status.to_string().parse::<UserStatus>(), Ok(status));
    }
    for role in [GlobalUserRole::Member, GlobalUserRole::SuperAdmin] {
        assert_eq!(role.to_string().parse::<GlobalUserRole>(), Ok(role));
    }
    assert_eq!(GlobalUserRole::SuperAdmin.to_string(), "super_admin");
    assert_eq!(WorkspaceRole::Owner.to_string(), "Owner");
}

#[test]
fn status_parse_rejects_unknown_text_with_message() {
    assert_eq!(
        "paused".parse::<WorkspaceStatus>(),
        Err("invalid workspace status: paused".to_owned())
    );
    assert_eq!("Active".parse::<UserStatus>(), Err("invalid user status: Active".to_owned()));
    assert_eq!(
        "admin".parse::<GlobalUserRole>(),
        Err("invalid global user role: admin".to_owned())
    );
}

#[test]
fn member_view_from_parts_names_membership_by_workspace_and_user() {
    let user = User::new(
        UserId::new("user_parts"),
        GlobalUserRole::Member,
        UserProfile::new(UserEmail::new("parts@example.com"), DisplayName::new("Parts")),
    );
    let view = WorkspaceMemberView::from_parts(&user, WorkspaceRole::Member, WorkspaceId::new("ws_parts"));
    assert_eq!(view.membership_id, WorkspaceMembershipId::new("ws_parts:user_parts"));
    assert_eq!(view.workspace_id, WorkspaceId::new("ws_parts"));
    assert_eq!(view.user_id, UserId::new("user_parts"));
    assert_eq!(view.email.as_str(), "parts@example.com");
    assert_eq!(view.display_name.as_str(), "Parts");
    assert_eq!(view.user_status, UserStatus::Active);
}

#[test]
fn clock_readings_are_ordinary_and_can_advance() {
    let now = WorkspaceLastUpdated::now();
    assert!(now.can_advance());
    assert!(!now.to_rfc3339().is_empty());
    assert!(now.to_rfc3339().ends_with('Z'));
}
