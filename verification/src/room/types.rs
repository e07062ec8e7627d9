//! The vocabulary of a collaborative room: where it lives, who is in it and
//! in which role.

use vstd::prelude::*;
use crate::text::{strip_prefix_text, text_eq};

verus! {

/// Where a room lives.
#[derive(Debug)]
pub enum RoomSpace {
    Public,
    Private(String),
}

/// A room space as text-level values.
pub enum RoomSpaceView {
    Public,
    Private(Seq<char>),
}

impl View for RoomSpace {
    type V = RoomSpaceView;

    open spec fn view(&self) -> RoomSpaceView {
        match self {
            RoomSpace::Public => RoomSpaceView::Public,
            RoomSpace::Private(name) => RoomSpaceView::Private(name@),
        }
    }
}

impl Clone for RoomSpace {
    fn clone(&self) -> (r: Self)
        ensures
            r == *self,
    {
        match self {
            RoomSpace::Public => RoomSpace::Public,
            RoomSpace::Private(name) => RoomSpace::Private(name.clone()),
        }
    }
}

impl PartialEq for RoomSpace {
    fn eq(&self, other: &Self) -> (r: bool) {
        match (self, other) {
            (RoomSpace::Public, RoomSpace::Public) => true,
            (RoomSpace::Private(a), RoomSpace::Private(b)) => *a == *b,
            _ => false,
        }
    }
}

impl vstd::std_specs::cmp::PartialEqSpecImpl for RoomSpace {
    open spec fn obeys_eq_spec() -> bool {
        true
    }

    open spec fn eq_spec(&self, other: &Self) -> bool {
        self@ == other@
    }
}

impl Eq for RoomSpace {}

/// The text form of a room space: `Public`, or `Private:` and the name.
pub open spec fn room_space_text(space: RoomSpaceView) -> Seq<char> {
    match space {
        RoomSpaceView::Public => "Public"@,
        RoomSpaceView::Private(name) => "Private:"@ + name,
    }
}

/// What reading a text as a room space gives.
pub open spec fn room_space_parse(s: Seq<char>) -> Option<RoomSpaceView> {
    if s == "Public"@ {
        Some(RoomSpaceView::Public)
    } else if "Private:"@.len() <= s.len() && s.subrange(0, "Private:"@.len() as int) == "Private:"@ {
        Some(RoomSpaceView::Private(s.subrange("Private:"@.len() as int, s.len() as int)))
    } else {
        None
    }
}

impl RoomSpace {
    pub fn to_string(&self) -> (r: String)
        ensures
            r@ == room_space_text(self@),
    {
        match self {
            RoomSpace::Public => "Public".to_owned(),
            RoomSpace::Private(name) => "Private:".to_owned().concat(name.as_str()),
        }
    }

    /// Reads `Public`, or `Private:` followed by the name; anything else is refused.
    pub fn parse(s: &str) -> (r: Result<Self, ()>)
        ensures
            match r {
                Ok(space) => room_space_parse(s@) == Some(space@),
                Err(()) => room_space_parse(s@) is None,
            },
    {
        if text_eq(s, "Public") {
            Ok(RoomSpace::Public)
        } else {
            match strip_prefix_text(s, "Private:") {
                Some(rest) => Ok(RoomSpace::Private(rest.to_owned())),
                None => Err(()),
            }
        }
    }
}

impl std::str::FromStr for RoomSpace {
    type Err = ();

    fn from_str(s: &str) -> (r: Result<Self, ()>)
        ensures
            match r {
                Ok(space) => room_space_parse(s@) == Some(space@),
                Err(()) => room_space_parse(s@) is None,
            },
    {
        RoomSpace::parse(s)
    }
}

/// Reading the text form of a room space gives the same space back.
pub proof fn lemma_room_space_text_round_trip(space: RoomSpaceView)
    ensures
        room_space_parse(room_space_text(space)) == Some(space),
{
    reveal_strlit("Public");
    reveal_strlit("Private:");
    assert("Public"@.len() == 6);
    assert("Private:"@.len() == 8);
    match space {
        RoomSpaceView::Public => {},
        RoomSpaceView::Private(name) => {
            let text = "Private:"@ + name;
            assert(text.subrange(0, 8) =~= "Private:"@);
            assert(text.subrange(8, text.len() as int) =~= name);
            assert(text.len() != 6);
        },
    }
}

/// The role of a member in a room.
#[derive(Debug, Clone, Copy, PartialEq, Eq, Structural)]
pub enum MemberRole {
    Admin,
    Member,
    Viewer,
}

impl MemberRole {
    /// The text form of each role: the variant's name.
    pub open spec fn text(self) -> Seq<char> {
        match self {
            MemberRole::Admin => "Admin"@,
            MemberRole::Member => "Member"@,
            MemberRole::Viewer => "Viewer"@,
        }
    }

    /// What reading a text as a role gives.
    pub open spec fn parse_spec(s: Seq<char>) -> Option<MemberRole> {
        if s == "Admin"@ {
            Some(MemberRole::Admin)
        } else if s == "Member"@ {
            Some(MemberRole::Member)
        } else if s == "Viewer"@ {
            Some(MemberRole::Viewer)
        } else {
            None
        }
    }

    pub fn to_string(&self) -> (r: String)
        ensures
            r@ == self.text(),
    {
        match self {
            MemberRole::Admin => "Admin".to_owned(),
            MemberRole::Member => "Member".to_owned(),
            MemberRole::Viewer => "Viewer".to_owned(),
        }
    }

    /// Reads a role by its exact name; anything else is refused.
    pub fn parse(s: &str) -> (r: Result<Self, ()>)
        ensures
            match r {
                Ok(role) => MemberRole::parse_spec(s@) == Some(role),
                Err(()) => MemberRole::parse_spec(s@) is None,
            },
    {
        if text_eq(s, "Admin") {
            Ok(MemberRole::Admin)
        } else if text_eq(s, "Member") {
            Ok(MemberRole::Member)
        } else if text_eq(s, "Viewer") {
            Ok(MemberRole::Viewer)
        } else {
            Err(())
        }
    }
}

impl std::str::FromStr for MemberRole {
    type Err = ();

    fn from_str(s: &str) -> (r: Result<Self, ()>)
        ensures
            match r {
                Ok(role) => MemberRole::parse_spec(s@) == Some(role),
                Err(()) => MemberRole::parse_spec(s@) is None,
            },
    {
        MemberRole::parse(s)
    }
}

/// Reading the text form of a role gives the same role back.
pub proof fn lemma_member_role_text_round_trip(role: MemberRole)
    ensures
        MemberRole::parse_spec(role.text()) == Some(role),
{
    reveal_strlit("Admin");
    reveal_strlit("Member");
    reveal_strlit("Viewer");
    assert("Admin"@.len() == 5);
    assert("Member"@.len() == 6);
    assert("Viewer"@.len() == 6);
    assert("Member"@[0] != "Viewer"@[0]);
}

/// Identifies a member of a room.
#[derive(Debug, Hash)]
pub struct MemberId(String);

impl View for MemberId {
    type V = Seq<char>;

    closed spec fn view(&self) -> Seq<char> {
        self.0@
    }
}

impl MemberId {
    pub fn new(value: &str) -> (r: Self)
        ensures
            r@ == value@,
    {
        MemberId(value.to_owned())
    }

    pub fn as_str(&self) -> (r: &str)
        ensures
            r@ == self@,
    {
        self.0.as_str()
    }

    /// The text of the value.
    pub fn to_string(&self) -> (r: String)
        ensures
            r@ == self@,
    {
        self.0.clone()
    }
}

impl Clone for MemberId {
    fn clone(&self) -> (r: Self)
        ensures
            r == *self,
    {
        MemberId(self.0.clone())
    }
}

impl PartialEq for MemberId {
    fn eq(&self, other: &Self) -> (r: bool) {
        self.0 == other.0
    }
}

impl vstd::std_specs::cmp::PartialEqSpecImpl for MemberId {
    open spec fn obeys_eq_spec() -> bool {
        true
    }

    open spec fn eq_spec(&self, other: &Self) -> bool {
        self@ == other@
    }
}

impl Eq for MemberId {}

impl From<String> for MemberId {
    fn from(value: String) -> (r: Self)
        ensures
            r@ == value@,
    {
        MemberId(value)
    }
}

impl vstd::std_specs::convert::FromSpecImpl<String> for MemberId {
    open spec fn obeys_from_spec() -> bool {
        true
    }

    closed spec fn from_spec(v: String) -> Self {
        MemberId(v)
    }
}

/// Name a room member is shown under.
#[derive(Debug, Hash)]
pub struct MemberName(String);

impl View for MemberName {
    type V = Seq<char>;

    closed spec fn view(&self) -> Seq<char> {
        self.0@
    }
}

impl MemberName {
    pub fn new(value: &str) -> (r: Self)
        ensures
            r@ == value@,
    {
        MemberName(value.to_owned())
    }

    pub fn as_str(&self) -> (r: &str)
        ensures
            r@ == self@,
    {
        self.0.as_str()
    }

    /// The text of the value.
    pub fn to_string(&self) -> (r: String)
        ensures
            r@ == self@,
    {
        self.0.clone()
    }
}

impl Clone for MemberName {
    fn clone(&self) -> (r: Self)
        ensures
            r == *self,
    {
        MemberName(self.0.clone())
    }
}

impl PartialEq for MemberName {
    fn eq(&self, other: &Self) -> (r: bool) {
        self.0 == other.0
    }
}

impl vstd::std_specs::cmp::PartialEqSpecImpl for MemberName {
    open spec fn obeys_eq_spec() -> bool {
        true
    }

    open spec fn eq_spec(&self, other: &Self) -> bool {
        self@ == other@
    }
}

impl Eq for MemberName {}

impl From<String> for MemberName {
    fn from(value: String) -> (r: Self)
        ensures
            r@ == value@,
    {
        MemberName(value)
    }
}

impl vstd::std_specs::convert::FromSpecImpl<String> for MemberName {
    open spec fn obeys_from_spec() -> bool {
        true
    }

    closed spec fn from_spec(v: String) -> Self {
        MemberName(v)
    }
}

impl MemberId {
    /// Wraps the text as it is; reading a member id never fails.
    pub fn parse(s: &str) -> (r: Result<Self, ()>)
        ensures
            r matches Ok(id) && id@ == s@,
    {
        Ok(MemberId::new(s))
    }
}

/// The fields of a member's record.
pub struct MemberInfoView {
    pub id: Seq<char>,
    pub name: Seq<char>,
    pub role: Seq<char>,
    pub space: Seq<char>,
}

/// A member of a room. The name, role and space are held as the texts that
/// are synchronized between peers.
#[derive(Debug)]
pub struct MemberInfo {
    pub id: MemberId,
    pub name: String,
    pub role: String,
    pub space: String,
}

impl View for MemberInfo {
    type V = MemberInfoView;

    open spec fn view(&self) -> MemberInfoView {
        MemberInfoView { id: self.id@, name: self.name@, role: self.role@, space: self.space@ }
    }
}

impl Clone for MemberInfo {
    fn clone(&self) -> (r: Self)
        ensures
            r == *self,
    {
        MemberInfo {
            id: self.id.clone(),
            name: self.name.clone(),
            role: self.role.clone(),
            space: self.space.clone(),
        }
    }
}

/// The role a role text stands for; a text that names no role stands for a viewer.
pub open spec fn role_of_text(s: Seq<char>) -> MemberRole {
    match MemberRole::parse_spec(s) {
        Some(role) => role,
        None => MemberRole::Viewer,
    }
}

/// The space a space text stands for; a text that names no space stands for the public space.
pub open spec fn space_of_text(s: Seq<char>) -> RoomSpaceView {
    match room_space_parse(s) {
        Some(space) => space,
        None => RoomSpaceView::Public,
    }
}

impl MemberInfo {
    pub fn new(id: MemberId, name: MemberName, role: MemberRole, space: RoomSpace) -> (r: Self)
        ensures
            r@ == (MemberInfoView {
                id: id@,
                name: name@,
                role: role.text(),
                space: room_space_text(space@),
            }),
    {
        MemberInfo {
            id,
            name: name.to_string(),
            role: role.to_string(),
            space: space.to_string(),
        }
    }

    pub fn get_id(&self) -> (r: MemberId)
        ensures
            r@ == self@.id,
    {
        self.id.clone()
    }

    pub fn get_name(&self) -> (r: MemberName)
        ensures
            r@ == self@.name,
    {
        MemberName::new(self.name.as_str())
    }

    /// The member's role; an unreadable role text reads as a viewer.
    pub fn get_role(&self) -> (r: MemberRole)
        ensures
            r == role_of_text(self@.role),
    {
        match MemberRole::parse(self.role.as_str()) {
            Ok(role) => role,
            Err(()) => MemberRole::Viewer,
        }
    }

    /// The member's space; an unreadable space text reads as the public space.
    pub fn get_space(&self) -> (r: RoomSpace)
        ensures
            r@ == space_of_text(self@.space),
    {
        match RoomSpace::parse(self.space.as_str()) {
            Ok(space) => space,
            Err(()) => RoomSpace::Public,
        }
    }
}

/// A member record gives back the role and space it was made with.
pub proof fn lemma_member_info_round_trip(role: MemberRole, space: RoomSpaceView)
    ensures
        role_of_text(role.text()) == role,
        space_of_text(room_space_text(space)) == space,
{
    lemma_member_role_text_round_trip(role);
    lemma_room_space_text_round_trip(space);
}

} // verus!
