//! The role a user holds inside one workspace.

use vstd::prelude::*;

verus! {

/// Role granted to a member inside a workspace.
#[derive(Debug, Clone, Copy, PartialEq, Eq, Structural, Hash)]
pub enum WorkspaceRole {
    Owner,
    Member,
}

impl WorkspaceRole {
    /// The text form of each role: the variant's name.
    pub open spec fn text(self) -> Seq<char> {
        match self {
            WorkspaceRole::Owner => "Owner"@,
            WorkspaceRole::Member => "Member"@,
        }
    }

    pub fn to_string(&self) -> (r: String)
        ensures
            r@ == self.text(),
    {
        match self {
            WorkspaceRole::Owner => "Owner".to_owned(),
            WorkspaceRole::Member => "Member".to_owned(),
        }
    }
}

} // verus!
