//! The entities: objects with an identity and a life of their own.

use vstd::prelude::*;
use vstd::string::*;
use vstd::utf8::encode_utf8;
use crate::domain::errors::{DomainError, DomainErrorView};
use crate::stamp::now_millis;
use crate::text::contains_char;

verus! {

/// What a user may do.
#[derive(Debug, Clone, Copy, PartialEq, Eq, Structural)]
pub enum UserRole {
    Admin,
    User,
    Editor,
    Viewer,
}

/// Where a user stands.
#[derive(Debug, Clone, Copy, PartialEq, Eq, Structural)]
pub enum UserStatus {
    Active,
    Inactive,
    Pending,
    Suspended,
}

/// The longest name of a user, in bytes.
pub const MAX_USER_NAME_BYTES: usize = 100;

/// A user of the system.
#[derive(Debug, PartialEq)]
pub struct User {
    pub id: i64,
    pub name: String,
    pub email: String,
    pub role: UserRole,
    pub status: UserStatus,
    /// When the user was created, in milliseconds since the Unix epoch.
    pub created_at: u64,
    /// When the user was last changed, if ever.
    pub updated_at: Option<u64>,
}

/// What is wrong with the data of a user, if anything: the e-mail address is
/// looked at first, then the name.
pub open spec fn user_fault(name: Seq<char>, email: Seq<char>) -> Option<Seq<char>> {
    if !email.contains('@') {
        Some("Invalid email format"@)
    } else if name.len() == 0 || encode_utf8(name).len() > MAX_USER_NAME_BYTES {
        Some("Name must be between 1 and 100 characters"@)
    } else {
        None
    }
}

impl User {
    /// A new user, created now, or the validation error where the e-mail
    /// address has no `@` or the name is empty or too long.
    pub fn new(id: i64, name: String, email: String, role: UserRole, status: UserStatus) -> (r: Result<Self, DomainError>)
        ensures
            match r {
                Ok(user) => {
                    &&& user_fault(name@, email@) is None
                    &&& user.id == id
                    &&& user.name@ == name@
                    &&& user.email@ == email@
                    &&& user.role == role
                    &&& user.status == status
                    &&& user.updated_at is None
                },
                Err(error) => user_fault(name@, email@) matches Some(fault) && error@
                    == DomainErrorView::ValidationError(fault),
            },
    {
        User::created_at(id, name, email, role, status, now_millis())
    }

    /// A new user, created at the time `now`.
    pub fn created_at(id: i64, name: String, email: String, role: UserRole, status: UserStatus, now: u64) -> (r: Result<Self, DomainError>)
        ensures
            match r {
                Ok(user) => {
                    &&& user_fault(name@, email@) is None
                    &&& user.id == id
                    &&& user.name@ == name@
                    &&& user.email@ == email@
                    &&& user.role == role
                    &&& user.status == status
                    &&& user.created_at == now
                    &&& user.updated_at is None
                },
                Err(error) => user_fault(name@, email@) matches Some(fault) && error@
                    == DomainErrorView::ValidationError(fault),
            },
    {
        if !contains_char(email.as_str(), '@') {
            return Err(DomainError::ValidationError("Invalid email format".to_owned()));
        }
        if name.as_str().is_empty() || name.as_str().as_bytes().len() > MAX_USER_NAME_BYTES {
            return Err(
                DomainError::ValidationError("Name must be between 1 and 100 characters".to_owned()),
            );
        }
        Ok(User { id, name, email, role, status, created_at: now, updated_at: None })
    }

    /// Changes the status of the user, and notes that the user changed now.
    pub fn update_status(&mut self, status: UserStatus)
        ensures
            final(self).status == status,
            final(self).updated_at is Some,
            final(self).id == old(self).id,
            final(self).name == old(self).name,
            final(self).email == old(self).email,
            final(self).role == old(self).role,
            final(self).created_at == old(self).created_at,
    {
        self.status = status;
        self.updated_at = Some(now_millis());
    }

    /// Changes the role of the user, and notes that the user changed now.
    pub fn update_role(&mut self, role: UserRole)
        ensures
            final(self).role == role,
            final(self).updated_at is Some,
            final(self).id == old(self).id,
            final(self).name == old(self).name,
            final(self).email == old(self).email,
            final(self).status == old(self).status,
            final(self).created_at == old(self).created_at,
    {
        self.role = role;
        self.updated_at = Some(now_millis());
    }
}

/// What is known of the data store.
#[derive(Debug, PartialEq)]
pub struct DatabaseStats {
    pub users_count: i64,
    pub tables: Vec<String>,
    pub database_size: Option<i64>,
    /// When this was found out, in milliseconds since the Unix epoch.
    pub last_updated: u64,
}

/// A counter.
#[derive(Debug, PartialEq)]
pub struct Counter {
    pub id: String,
    pub value: i64,
    pub label: String,
    /// When the counter was created, in milliseconds since the Unix epoch.
    pub created_at: u64,
    /// When the counter last changed.
    pub updated_at: u64,
}

impl Counter {
    /// A counter at zero, created now.
    pub fn new(id: String, label: String) -> (counter: Self)
        ensures
            counter.id@ == id@,
            counter.label@ == label@,
            counter.value == 0,
            counter.created_at == counter.updated_at,
    {
        let now = now_millis();
        Counter { id, value: 0, label, created_at: now, updated_at: now }
    }

    /// Counts one up.
    pub fn increment(&mut self)
        requires
            old(self).value < i64::MAX,
        ensures
            final(self).value == old(self).value + 1,
            final(self).id == old(self).id,
            final(self).label == old(self).label,
            final(self).created_at == old(self).created_at,
    {
        self.value = self.value + 1;
        self.updated_at = now_millis();
    }

    /// Counts one down.
    pub fn decrement(&mut self)
        requires
            old(self).value > i64::MIN,
        ensures
            final(self).value == old(self).value - 1,
            final(self).id == old(self).id,
            final(self).label == old(self).label,
            final(self).created_at == old(self).created_at,
    {
        self.value = self.value - 1;
        self.updated_at = now_millis();
    }

    /// Sets the counter back to zero.
    pub fn reset(&mut self)
        ensures
            final(self).value == 0,
            final(self).id == old(self).id,
            final(self).label == old(self).label,
            final(self).created_at == old(self).created_at,
    {
        self.value = 0;
        self.updated_at = now_millis();
    }
}

/// What a frontend tells of the machine it runs on.
#[derive(Debug, PartialEq)]
pub struct SystemInfo {
    pub platform: String,
    pub user_agent: String,
    pub language: String,
    pub screen_resolution: String,
    pub memory_gb: Option<u32>,
    pub cpu_cores: Option<u32>,
    pub online: bool,
    /// When this was told, in milliseconds since the Unix epoch.
    pub timestamp: u64,
}

} // verus!
