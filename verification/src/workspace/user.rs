//! The global user record.

use vstd::prelude::*;
use crate::workspace::ids::UserId;
use crate::workspace::user_types::{DisplayName, GlobalUserRole, UserEmail, UserStatus};

verus! {

/// The fields of a user profile.
pub struct ProfileModel {
    pub email: UserEmail,
    pub display_name: DisplayName,
}

/// Minimal profile data that belongs to the global user entity.
#[derive(Debug, PartialEq, Eq)]
pub struct UserProfile {
    email: UserEmail,
    display_name: DisplayName,
}

impl View for UserProfile {
    type V = ProfileModel;

    closed spec fn view(&self) -> ProfileModel {
        ProfileModel { email: self.email, display_name: self.display_name }
    }
}

impl Clone for UserProfile {
    fn clone(&self) -> (r: Self)
        ensures
            r == *self,
    {
        UserProfile { email: self.email.clone(), display_name: self.display_name.clone() }
    }
}

impl UserProfile {
    pub fn new(email: UserEmail, display_name: DisplayName) -> (r: Self)
        ensures
            r@ == (ProfileModel { email, display_name }),
    {
        UserProfile { email, display_name }
    }

    pub fn email(&self) -> (r: &UserEmail)
        ensures
            *r == self@.email,
    {
        &self.email
    }

    pub fn display_name(&self) -> (r: &DisplayName)
        ensures
            *r == self@.display_name,
    {
        &self.display_name
    }
}

/// The fields of a user.
pub struct UserModel {
    pub id: UserId,
    pub role: GlobalUserRole,
    pub status: UserStatus,
    pub profile: UserProfile,
}

/// The canonical global user record: identity, account lifecycle status,
/// global role and profile data.
#[derive(Debug, PartialEq, Eq)]
pub struct User {
    id: UserId,
    role: GlobalUserRole,
    status: UserStatus,
    profile: UserProfile,
}

impl View for User {
    type V = UserModel;

    closed spec fn view(&self) -> UserModel {
        UserModel { id: self.id, role: self.role, status: self.status, profile: self.profile }
    }
}

impl Clone for User {
    fn clone(&self) -> (r: Self)
        ensures
            r == *self,
    {
        User {
            id: self.id.clone(),
            role: self.role,
            status: self.status,
            profile: self.profile.clone(),
        }
    }
}

impl User {
    /// A new user starts active.
    pub fn new(id: UserId, role: GlobalUserRole, profile: UserProfile) -> (r: Self)
        ensures
            r@ == (UserModel { id, role, status: UserStatus::Active, profile }),
    {
        User { id, role, status: UserStatus::Active, profile }
    }

    pub fn id(&self) -> (r: &UserId)
        ensures
            *r == self@.id,
    {
        &self.id
    }

    pub fn role(&self) -> (r: GlobalUserRole)
        ensures
            r == self@.role,
    {
        self.role
    }

    pub fn status(&self) -> (r: UserStatus)
        ensures
            r == self@.status,
    {
        self.status
    }

    pub fn profile(&self) -> (r: &UserProfile)
        ensures
            *r == self@.profile,
    {
        &self.profile
    }

    pub fn activate(&mut self)
        ensures
            final(self)@ == (UserModel { status: UserStatus::Active, ..old(self)@ }),
    {
        self.status = UserStatus::Active;
    }

    pub fn suspend(&mut self)
        ensures
            final(self)@ == (UserModel { status: UserStatus::Suspended, ..old(self)@ }),
    {
        self.status = UserStatus::Suspended;
    }

    pub fn disable(&mut self)
        ensures
            final(self)@ == (UserModel { status: UserStatus::Disabled, ..old(self)@ }),
    {
        self.status = UserStatus::Disabled;
    }
}

} // verus!
