//! Workspace-wide access policy.

use vstd::prelude::*;

verus! {

/// Whether guests may enter a workspace.
#[derive(Debug, Clone, Copy, PartialEq, Eq, Structural, Hash)]
pub enum GuestAccessPolicy {
    Denied,
    Allowed,
}

/// Access policy of a workspace.
#[derive(Debug, Clone, Copy, PartialEq, Eq, Structural)]
pub struct WorkspacePolicy {
    pub guest_access: GuestAccessPolicy,
}

impl Default for WorkspacePolicy {
    /// Guests are denied unless a workspace opts in.
    fn default() -> (r: Self)
        ensures
            r.guest_access == GuestAccessPolicy::Denied,
    {
        WorkspacePolicy { guest_access: GuestAccessPolicy::Denied }
    }
}

} // verus!
