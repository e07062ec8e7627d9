//! Outbound dependency traits for the workspace domain live here.

pub mod membership_repository;
pub mod secret_store;
pub mod user_repository;
pub mod workspace_repository;

pub use membership_repository::MembershipRepository;
pub use secret_store::SecretStore;
pub use user_repository::UserRepository;
pub use workspace_repository::WorkspaceRepository;
