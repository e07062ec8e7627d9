//! Global user roles, account status and profile values.

use vstd::prelude::*;
use crate::text::text_eq;

verus! {

/// Platform-wide role of a user.
#[derive(Debug, Clone, Copy, PartialEq, Eq, Structural, Hash)]
pub enum GlobalUserRole {
    Member,
    SuperAdmin,
}

impl GlobalUserRole {
    /// The text form of each value.
    pub open spec fn text(self) -> Seq<char> {
        match self {
            GlobalUserRole::Member => "member"@,
            GlobalUserRole::SuperAdmin => "super_admin"@,
        }
    }

    /// What parsing a text gives: the value whose text it is, or the error message.
    pub open spec fn parse_spec(s: Seq<char>) -> Result<GlobalUserRole, Seq<char>> {
        if s == "member"@ {
            Ok(GlobalUserRole::Member)
        } else if s == "super_admin"@ {
            Ok(GlobalUserRole::SuperAdmin)
        } else {
            Err("invalid global user role: "@ + s)
        }
    }

    pub fn to_string(&self) -> (r: String)
        ensures
            r@ == self.text(),
    {
        match self {
            GlobalUserRole::Member => "member".to_owned(),
            GlobalUserRole::SuperAdmin => "super_admin".to_owned(),
        }
    }

    /// Parses the text form; any other text is rejected with a message naming it.
    pub fn parse(s: &str) -> (r: Result<Self, String>)
        ensures
            match r {
                Ok(v) => GlobalUserRole::parse_spec(s@) == Ok::<GlobalUserRole, Seq<char>>(v),
                Err(e) => GlobalUserRole::parse_spec(s@) == Err::<GlobalUserRole, Seq<char>>(e@),
            },
    {
        if text_eq(s, "member") {
            return Ok(GlobalUserRole::Member);
        }
        if text_eq(s, "super_admin") {
            return Ok(GlobalUserRole::SuperAdmin);
        }
        Err("invalid global user role: ".to_owned().concat(s))
    }
}

impl std::str::FromStr for GlobalUserRole {
    type Err = String;

    fn from_str(s: &str) -> (r: Result<Self, String>)
        ensures
            match r {
                Ok(v) => GlobalUserRole::parse_spec(s@) == Ok::<GlobalUserRole, Seq<char>>(v),
                Err(e) => GlobalUserRole::parse_spec(s@) == Err::<GlobalUserRole, Seq<char>>(e@),
            },
    {
        GlobalUserRole::parse(s)
    }
}

/// Lifecycle status of a user account.
#[derive(Debug, Clone, Copy, PartialEq, Eq, Structural, Hash)]
pub enum UserStatus {
    Active,
    Suspended,
    Disabled,
}

impl UserStatus {
    /// The text form of each value.
    pub open spec fn text(self) -> Seq<char> {
        match self {
            UserStatus::Active => "active"@,
            UserStatus::Suspended => "suspended"@,
            UserStatus::Disabled => "disabled"@,
        }
    }

    /// What parsing a text gives: the value whose text it is, or the error message.
    pub open spec fn parse_spec(s: Seq<char>) -> Result<UserStatus, Seq<char>> {
        if s == "active"@ {
            Ok(UserStatus::Active)
        } else if s == "suspended"@ {
            Ok(UserStatus::Suspended)
        } else if s == "disabled"@ {
            Ok(UserStatus::Disabled)
        } else {
            Err("invalid user status: "@ + s)
        }
    }

    pub fn to_string(&self) -> (r: String)
        ensures
            r@ == self.text(),
    {
        match self {
            UserStatus::Active => "active".to_owned(),
            UserStatus::Suspended => "suspended".to_owned(),
            UserStatus::Disabled => "disabled".to_owned(),
        }
    }

    /// Parses the text form; any other text is rejected with a message naming it.
    pub fn parse(s: &str) -> (r: Result<Self, String>)
        ensures
            match r {
                Ok(v) => UserStatus::parse_spec(s@) == Ok::<UserStatus, Seq<char>>(v),
                Err(e) => UserStatus::parse_spec(s@) == Err::<UserStatus, Seq<char>>(e@),
            },
    {
        if text_eq(s, "active") {
            return Ok(UserStatus::Active);
        }
        if text_eq(s, "suspended") {
            return Ok(UserStatus::Suspended);
        }
        if text_eq(s, "disabled") {
            return Ok(UserStatus::Disabled);
        }
        Err("invalid user status: ".to_owned().concat(s))
    }
}

impl std::str::FromStr for UserStatus {
    type Err = String;

    fn from_str(s: &str) -> (r: Result<Self, String>)
        ensures
            match r {
                Ok(v) => UserStatus::parse_spec(s@) == Ok::<UserStatus, Seq<char>>(v),
                Err(e) => UserStatus::parse_spec(s@) == Err::<UserStatus, Seq<char>>(e@),
            },
    {
        UserStatus::parse(s)
    }
}

/// Reading back the text form of a GlobalUserRole gives the same value.
pub proof fn lemma_global_user_role_text_round_trip(v: GlobalUserRole)
    ensures
        GlobalUserRole::parse_spec(v.text()) == Ok::<GlobalUserRole, Seq<char>>(v),
{
    reveal_strlit("member");
    reveal_strlit("super_admin");
    assert("member"@.len() == 6);
    assert("super_admin"@.len() == 11);
}

/// Reading back the text form of a UserStatus gives the same value.
pub proof fn lemma_user_status_text_round_trip(v: UserStatus)
    ensures
        UserStatus::parse_spec(v.text()) == Ok::<UserStatus, Seq<char>>(v),
{
    reveal_strlit("active");
    reveal_strlit("suspended");
    reveal_strlit("disabled");
    assert("active"@.len() == 6);
    assert("suspended"@.len() == 9);
    assert("disabled"@.len() == 8);
}

/// Email address of a user.
#[derive(Debug, Hash)]
pub struct UserEmail(String);

impl View for UserEmail {
    type V = Seq<char>;

    closed spec fn view(&self) -> Seq<char> {
        self.0@
    }
}

impl UserEmail {
    pub fn new(value: &str) -> (r: Self)
        ensures
            r@ == value@,
    {
        UserEmail(value.to_owned())
    }

    pub fn as_str(&self) -> (r: &str)
        ensures
            r@ == self@,
    {
        self.0.as_str()
    }

    /// The text of the value.
    pub fn to_string(&self) -> (r: String)
        ensures
            r@ == self@,
    {
        self.0.clone()
    }
}

impl Clone for UserEmail {
    fn clone(&self) -> (r: Self)
        ensures
            r == *self,
    {
        UserEmail(self.0.clone())
    }
}

impl PartialEq for UserEmail {
    fn eq(&self, other: &Self) -> (r: bool) {
        self.0 == other.0
    }
}

impl vstd::std_specs::cmp::PartialEqSpecImpl for UserEmail {
    open spec fn obeys_eq_spec() -> bool {
        true
    }

    open spec fn eq_spec(&self, other: &Self) -> bool {
        self@ == other@
    }
}

impl Eq for UserEmail {}

impl From<String> for UserEmail {
    fn from(value: String) -> (r: Self)
        ensures
            r@ == value@,
    {
        UserEmail(value)
    }
}

impl vstd::std_specs::convert::FromSpecImpl<String> for UserEmail {
    open spec fn obeys_from_spec() -> bool {
        true
    }

    closed spec fn from_spec(v: String) -> Self {
        UserEmail(v)
    }
}

/// Name a user is shown under.
#[derive(Debug, Hash)]
pub struct DisplayName(String);

impl View for DisplayName {
    type V = Seq<char>;

    closed spec fn view(&self) -> Seq<char> {
        self.0@
    }
}

impl DisplayName {
    pub fn new(value: &str) -> (r: Self)
        ensures
            r@ == value@,
    {
        DisplayName(value.to_owned())
    }

    pub fn as_str(&self) -> (r: &str)
        ensures
            r@ == self@,
    {
        self.0.as_str()
    }

    /// The text of the value.
    pub fn to_string(&self) -> (r: String)
        ensures
            r@ == self@,
    {
        self.0.clone()
    }
}

impl Clone for DisplayName {
    fn clone(&self) -> (r: Self)
        ensures
            r == *self,
    {
        DisplayName(self.0.clone())
    }
}

impl PartialEq for DisplayName {
    fn eq(&self, other: &Self) -> (r: bool) {
        self.0 == other.0
    }
}

impl vstd::std_specs::cmp::PartialEqSpecImpl for DisplayName {
    open spec fn obeys_eq_spec() -> bool {
        true
    }

    open spec fn eq_spec(&self, other: &Self) -> bool {
        self@ == other@
    }
}

impl Eq for DisplayName {}

impl From<String> for DisplayName {
    fn from(value: String) -> (r: Self)
        ensures
            r@ == value@,
    {
        DisplayName(value)
    }
}

impl vstd::std_specs::convert::FromSpecImpl<String> for DisplayName {
    open spec fn obeys_from_spec() -> bool {
        true
    }

    closed spec fn from_spec(v: String) -> Self {
        DisplayName(v)
    }
}

} // verus!
