//! The persisted records the core reads: users, sessions and memberships.
//! Timestamps are milliseconds since the Unix epoch.

use vstd::prelude::*;

verus! {

/// Account state of a user.
#[derive(Clone, Copy, Debug, PartialEq, Eq, Structural)]
pub enum UserStatus {
    Active,
    Pending,
    Banned,
}

impl UserStatus {
    /// The status stored as a number: 0 active, 1 pending, 2 banned.
    pub open spec fn code_spec(self) -> i32 {
        match self {
            UserStatus::Active => 0,
            UserStatus::Pending => 1,
            UserStatus::Banned => 2,
        }
    }

    pub fn code(&self) -> (c: i32)
        ensures
            c == self.code_spec(),
    {
        match self {
            UserStatus::Active => 0,
            UserStatus::Pending => 1,
            UserStatus::Banned => 2,
        }
    }

    /// The status for a stored number; `None` for a number no status has.
    pub fn from_code(c: i32) -> (s: Option<UserStatus>)
        ensures
            s matches Some(st) ==> st.code_spec() == c,
            s is None ==> c < 0 || c > 2,
    {
        if c == 0 {
            Some(UserStatus::Active)
        } else if c == 1 {
            Some(UserStatus::Pending)
        } else if c == 2 {
            Some(UserStatus::Banned)
        } else {
            None
        }
    }
}

#[derive(Clone, Debug, PartialEq, Eq)]
pub struct UserRecord {
    pub id: i32,
    pub username: String,
    pub nickname: String,
    /// Lowercase hexadecimal digest of the password.
    pub password: String,
    pub status: UserStatus,
}

#[derive(Clone, Debug, PartialEq, Eq)]
pub struct SessionRecord {
    pub token: String,
    pub user: i32,
    pub agent: String,
    pub generated: i64,
    pub expired: i64,
}

#[derive(Clone, Copy, Debug, PartialEq, Eq, Structural)]
pub struct Membership {
    pub user: i32,
    pub room: i32,
    pub joined: i64,
}

} // verus!
