use vstd::prelude::*;
use crate::workspace::errors::WorkspaceResult;
use crate::workspace::ids::{UserId, WorkspaceId};
use crate::workspace::user::User;

verus! {

/// Abstracts access to the global user records the workspace domain depends on.
///
/// Use this port when workspace use cases need typed user identity or account
/// state while keeping persistence and lookup strategy outside the domain.
///
/// Each `spec fn` here says which answers a store may give to a call; an
/// implementation defines them from what it holds.
pub trait UserRepository: Send + Sync {
    /// Whether `r` is an answer this store may give to a lookup of `user_id`.
    spec fn gets_user(&self, user_id: UserId, r: WorkspaceResult<User>) -> bool;

    /// Whether `r` is an answer this store may give when asked for the users `user_ids`.
    spec fn lists_by_ids(&self, user_ids: &[UserId], r: WorkspaceResult<Vec<User>>) -> bool;

    /// Returns an error when the user is absent.
    fn get(&self, user_id: &UserId) -> (r: WorkspaceResult<User>)
        ensures
            r matches Ok(user) ==> user@.id@ == user_id@,
            self.gets_user(*user_id, r),
    ;

    /// Returns users for the provided ids in storage-defined order.
    fn list_by_ids(&self, user_ids: &[UserId]) -> (r: WorkspaceResult<Vec<User>>)
        ensures
            self.lists_by_ids(user_ids, r),
    ;

    /// Returns users who can be invited to a workspace (excluding current members).
    fn find_candidates(
        &self,
        workspace_id: &WorkspaceId,
        query: &str,
        limit: usize,
    ) -> (r: WorkspaceResult<Vec<User>>);

    /// Returns all users in the system.
    fn list_all(&self) -> (r: WorkspaceResult<Vec<User>>);
}

} // verus!
