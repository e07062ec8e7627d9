//! Lifecycle status of a workspace.

use vstd::prelude::*;
use crate::text::text_eq;

verus! {

/// Lifecycle status of a workspace.
#[derive(Debug, Clone, Copy, PartialEq, Eq, Structural, Hash)]
pub enum WorkspaceStatus {
    Active,
    Suspended,
    Disabled,
}

impl WorkspaceStatus {
    /// The text form of each value.
    pub open spec fn text(self) -> Seq<char> {
        match self {
            WorkspaceStatus::Active => "active"@,
            WorkspaceStatus::Suspended => "suspended"@,
            WorkspaceStatus::Disabled => "disabled"@,
        }
    }

    /// What parsing a text gives: the value whose text it is, or the error message.
    pub open spec fn parse_spec(s: Seq<char>) -> Result<WorkspaceStatus, Seq<char>> {
        if s == "active"@ {
            Ok(WorkspaceStatus::Active)
        } else if s == "suspended"@ {
            Ok(WorkspaceStatus::Suspended)
        } else if s == "disabled"@ {
            Ok(WorkspaceStatus::Disabled)
        } else {
            Err("invalid workspace status: "@ + s)
        }
    }

    pub fn to_string(&self) -> (r: String)
        ensures
            r@ == self.text(),
    {
        match self {
            WorkspaceStatus::Active => "active".to_owned(),
            WorkspaceStatus::Suspended => "suspended".to_owned(),
            WorkspaceStatus::Disabled => "disabled".to_owned(),
        }
    }

    /// Parses the text form; any other text is rejected with a message naming it.
    pub fn parse(s: &str) -> (r: Result<Self, String>)
        ensures
            match r {
                Ok(v) => WorkspaceStatus::parse_spec(s@) == Ok::<WorkspaceStatus, Seq<char>>(v),
                Err(e) => WorkspaceStatus::parse_spec(s@) == Err::<WorkspaceStatus, Seq<char>>(e@),
            },
    {
        if text_eq(s, "active") {
            return Ok(WorkspaceStatus::Active);
        }
        if text_eq(s, "suspended") {
            return Ok(WorkspaceStatus::Suspended);
        }
        if text_eq(s, "disabled") {
            return Ok(WorkspaceStatus::Disabled);
        }
        Err("invalid workspace status: ".to_owned().concat(s))
    }
}

impl std::str::FromStr for WorkspaceStatus {
    type Err = String;

    fn from_str(s: &str) -> (r: Result<Self, String>)
        ensures
            match r {
                Ok(v) => WorkspaceStatus::parse_spec(s@) == Ok::<WorkspaceStatus, Seq<char>>(v),
                Err(e) => WorkspaceStatus::parse_spec(s@) == Err::<WorkspaceStatus, Seq<char>>(e@),
            },
    {
        WorkspaceStatus::parse(s)
    }
}

/// Reading back the text form of a WorkspaceStatus gives the same value.
pub proof fn lemma_workspace_status_text_round_trip(v: WorkspaceStatus)
    ensures
        WorkspaceStatus::parse_spec(v.text()) == Ok::<WorkspaceStatus, Seq<char>>(v),
{
    reveal_strlit("active");
    reveal_strlit("suspended");
    reveal_strlit("disabled");
    assert("active"@.len() == 6);
    assert("suspended"@.len() == 9);
    assert("disabled"@.len() == 8);
}

} // verus!
