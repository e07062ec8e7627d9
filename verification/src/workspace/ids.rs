//! Typed identifiers of the workspace domain.

use vstd::prelude::*;

verus! {

/// Identifies one workspace.
#[derive(Debug, Hash)]
pub struct WorkspaceId(String);

impl View for WorkspaceId {
    type V = Seq<char>;

    closed spec fn view(&self) -> Seq<char> {
        self.0@
    }
}

impl WorkspaceId {
    pub fn new(value: &str) -> (r: Self)
        ensures
            r@ == value@,
    {
        WorkspaceId(value.to_owned())
    }

    pub fn as_str(&self) -> (r: &str)
        ensures
            r@ == self@,
    {
        self.0.as_str()
    }

    /// The text of the value.
    pub fn to_string(&self) -> (r: String)
        ensures
            r@ == self@,
    {
        self.0.clone()
    }
}

impl Clone for WorkspaceId {
    fn clone(&self) -> (r: Self)
        ensures
            r == *self,
    {
        WorkspaceId(self.0.clone())
    }
}

impl PartialEq for WorkspaceId {
    fn eq(&self, other: &Self) -> (r: bool) {
        self.0 == other.0
    }
}

impl vstd::std_specs::cmp::PartialEqSpecImpl for WorkspaceId {
    open spec fn obeys_eq_spec() -> bool {
        true
    }

    open spec fn eq_spec(&self, other: &Self) -> bool {
        self@ == other@
    }
}

impl Eq for WorkspaceId {}

impl From<String> for WorkspaceId {
    fn from(value: String) -> (r: Self)
        ensures
            r@ == value@,
    {
        WorkspaceId(value)
    }
}

impl vstd::std_specs::convert::FromSpecImpl<String> for WorkspaceId {
    open spec fn obeys_from_spec() -> bool {
        true
    }

    closed spec fn from_spec(v: String) -> Self {
        WorkspaceId(v)
    }
}

/// Identifies one global user.
#[derive(Debug, Hash)]
pub struct UserId(String);

impl View for UserId {
    type V = Seq<char>;

    closed spec fn view(&self) -> Seq<char> {
        self.0@
    }
}

impl UserId {
    pub fn new(value: &str) -> (r: Self)
        ensures
            r@ == value@,
    {
        UserId(value.to_owned())
    }

    pub fn as_str(&self) -> (r: &str)
        ensures
            r@ == self@,
    {
        self.0.as_str()
    }

    /// The text of the value.
    pub fn to_string(&self) -> (r: String)
        ensures
            r@ == self@,
    {
        self.0.clone()
    }
}

impl Clone for UserId {
    fn clone(&self) -> (r: Self)
        ensures
            r == *self,
    {
        UserId(self.0.clone())
    }
}

impl PartialEq for UserId {
    fn eq(&self, other: &Self) -> (r: bool) {
        self.0 == other.0
    }
}

impl vstd::std_specs::cmp::PartialEqSpecImpl for UserId {
    open spec fn obeys_eq_spec() -> bool {
        true
    }

    open spec fn eq_spec(&self, other: &Self) -> bool {
        self@ == other@
    }
}

impl Eq for UserId {}

impl From<String> for UserId {
    fn from(value: String) -> (r: Self)
        ensures
            r@ == value@,
    {
        UserId(value)
    }
}

impl vstd::std_specs::convert::FromSpecImpl<String> for UserId {
    open spec fn obeys_from_spec() -> bool {
        true
    }

    closed spec fn from_spec(v: String) -> Self {
        UserId(v)
    }
}

/// Identifies one workspace membership.
#[derive(Debug, Hash)]
pub struct WorkspaceMembershipId(String);

impl View for WorkspaceMembershipId {
    type V = Seq<char>;

    closed spec fn view(&self) -> Seq<char> {
        self.0@
    }
}

impl WorkspaceMembershipId {
    pub fn new(value: &str) -> (r: Self)
        ensures
            r@ == value@,
    {
        WorkspaceMembershipId(value.to_owned())
    }

    pub fn as_str(&self) -> (r: &str)
        ensures
            r@ == self@,
    {
        self.0.as_str()
    }

    /// The text of the value.
    pub fn to_string(&self) -> (r: String)
        ensures
            r@ == self@,
    {
        self.0.clone()
    }
}

impl Clone for WorkspaceMembershipId {
    fn clone(&self) -> (r: Self)
        ensures
            r == *self,
    {
        WorkspaceMembershipId(self.0.clone())
    }
}

impl PartialEq for WorkspaceMembershipId {
    fn eq(&self, other: &Self) -> (r: bool) {
        self.0 == other.0
    }
}

impl vstd::std_specs::cmp::PartialEqSpecImpl for WorkspaceMembershipId {
    open spec fn obeys_eq_spec() -> bool {
        true
    }

    open spec fn eq_spec(&self, other: &Self) -> bool {
        self@ == other@
    }
}

impl Eq for WorkspaceMembershipId {}

impl From<String> for WorkspaceMembershipId {
    fn from(value: String) -> (r: Self)
        ensures
            r@ == value@,
    {
        WorkspaceMembershipId(value)
    }
}

impl vstd::std_specs::convert::FromSpecImpl<String> for WorkspaceMembershipId {
    open spec fn obeys_from_spec() -> bool {
        true
    }

    closed spec fn from_spec(v: String) -> Self {
        WorkspaceMembershipId(v)
    }
}

/// Identifies one workspace API key.
#[derive(Debug, Hash)]
pub struct WorkspaceApiKeyId(String);

impl View for WorkspaceApiKeyId {
    type V = Seq<char>;

    closed spec fn view(&self) -> Seq<char> {
        self.0@
    }
}

impl WorkspaceApiKeyId {
    pub fn new(value: &str) -> (r: Self)
        ensures
            r@ == value@,
    {
        WorkspaceApiKeyId(value.to_owned())
    }

    pub fn as_str(&self) -> (r: &str)
        ensures
            r@ == self@,
    {
        self.0.as_str()
    }

    /// The text of the value.
    pub fn to_string(&self) -> (r: String)
        ensures
            r@ == self@,
    {
        self.0.clone()
    }
}

impl Clone for WorkspaceApiKeyId {
    fn clone(&self) -> (r: Self)
        ensures
            r == *self,
    {
        WorkspaceApiKeyId(self.0.clone())
    }
}

impl PartialEq for WorkspaceApiKeyId {
    fn eq(&self, other: &Self) -> (r: bool) {
        self.0 == other.0
    }
}

impl vstd::std_specs::cmp::PartialEqSpecImpl for WorkspaceApiKeyId {
    open spec fn obeys_eq_spec() -> bool {
        true
    }

    open spec fn eq_spec(&self, other: &Self) -> bool {
        self@ == other@
    }
}

impl Eq for WorkspaceApiKeyId {}

impl From<String> for WorkspaceApiKeyId {
    fn from(value: String) -> (r: Self)
        ensures
            r@ == value@,
    {
        WorkspaceApiKeyId(value)
    }
}

impl vstd::std_specs::convert::FromSpecImpl<String> for WorkspaceApiKeyId {
    open spec fn obeys_from_spec() -> bool {
        true
    }

    closed spec fn from_spec(v: String) -> Self {
        WorkspaceApiKeyId(v)
    }
}

/// Identifies one stored workspace secret.
#[derive(Debug, Hash)]
pub struct WorkspaceSecretRefId(String);

impl View for WorkspaceSecretRefId {
    type V = Seq<char>;

    closed spec fn view(&self) -> Seq<char> {
        self.0@
    }
}

impl WorkspaceSecretRefId {
    pub fn new(value: &str) -> (r: Self)
        ensures
            r@ == value@,
    {
        WorkspaceSecretRefId(value.to_owned())
    }

    pub fn as_str(&self) -> (r: &str)
        ensures
            r@ == self@,
    {
        self.0.as_str()
    }

    /// The text of the value.
    pub fn to_string(&self) -> (r: String)
        ensures
            r@ == self@,
    {
        self.0.clone()
    }
}

impl Clone for WorkspaceSecretRefId {
    fn clone(&self) -> (r: Self)
        ensures
            r == *self,
    {
        WorkspaceSecretRefId(self.0.clone())
    }
}

impl PartialEq for WorkspaceSecretRefId {
    fn eq(&self, other: &Self) -> (r: bool) {
        self.0 == other.0
    }
}

impl vstd::std_specs::cmp::PartialEqSpecImpl for WorkspaceSecretRefId {
    open spec fn obeys_eq_spec() -> bool {
        true
    }

    open spec fn eq_spec(&self, other: &Self) -> bool {
        self@ == other@
    }
}

impl Eq for WorkspaceSecretRefId {}

impl From<String> for WorkspaceSecretRefId {
    fn from(value: String) -> (r: Self)
        ensures
            r@ == value@,
    {
        WorkspaceSecretRefId(value)
    }
}

impl vstd::std_specs::convert::FromSpecImpl<String> for WorkspaceSecretRefId {
    open spec fn obeys_from_spec() -> bool {
        true
    }

    closed spec fn from_spec(v: String) -> Self {
        WorkspaceSecretRefId(v)
    }
}

/// Version number of a stored workspace secret.
#[derive(Debug, Clone, Copy, PartialEq, Eq, Structural, Hash)]
pub struct WorkspaceSecretVersion(u64);

impl View for WorkspaceSecretVersion {
    type V = u64;

    closed spec fn view(&self) -> u64 {
        self.0
    }
}

impl WorkspaceSecretVersion {
    pub fn new(value: u64) -> (r: Self)
        ensures
            r@ == value,
    {
        WorkspaceSecretVersion(value)
    }

    pub fn get(self) -> (r: u64)
        ensures
            r == self@,
    {
        self.0
    }
}

impl From<u64> for WorkspaceSecretVersion {
    fn from(value: u64) -> (r: Self)
        ensures
            r@ == value,
    {
        WorkspaceSecretVersion(value)
    }
}

impl vstd::std_specs::convert::FromSpecImpl<u64> for WorkspaceSecretVersion {
    open spec fn obeys_from_spec() -> bool {
        true
    }

    closed spec fn from_spec(v: u64) -> Self {
        WorkspaceSecretVersion(v)
    }
}

} // verus!
