//! The session authenticator: from a looked-up session and user to an identity.

use vstd::prelude::*;
use crate::records::{SessionRecord, UserRecord};

verus! {

#[derive(Clone, Copy, Debug, PartialEq, Eq, Structural)]
pub enum AuthError {
    /// No session has the token.
    TokenNotFound,
    /// The session's expiry has passed.
    SessionExpired,
    /// The session names a user that does not exist.
    UserMissing,
    /// The records could not be read.
    Lookup,
}

pub open spec fn auth_error_text(e: AuthError) -> Seq<char> {
    match e {
        AuthError::TokenNotFound => "Please login first!"@,
        AuthError::SessionExpired => "Login status expired!"@,
        AuthError::UserMissing => "User not found!"@,
        AuthError::Lookup => "Error accessing database!"@,
    }
}

impl AuthError {
    /// The text reported to a client for this error.
    pub fn message(&self) -> (s: String)
        ensures
            s@ == auth_error_text(*self),
    {
        match self {
            AuthError::TokenNotFound => String::from_str("Please login first!"),
            AuthError::SessionExpired => String::from_str("Login status expired!"),
            AuthError::UserMissing => String::from_str("User not found!"),
            AuthError::Lookup => String::from_str("Error accessing database!"),
        }
    }
}

/// A session authenticates at `now` while `now` is before its expiry.
pub open spec fn session_live(s: SessionRecord, now: i64) -> bool {
    now < s.expired
}

/// First step of authentication: the session found for a token (if any) gives
/// the owning user's id, unless it has expired.
pub fn check_session(session: Option<&SessionRecord>, now: i64) -> (r: Result<i32, AuthError>)
    ensures
        session is None ==> r == Err::<i32, AuthError>(AuthError::TokenNotFound),
        session matches Some(s) ==> r == if session_live(*s, now) {
            Ok::<i32, AuthError>(s.user)
        } else {
            Err(AuthError::SessionExpired)
        },
{
    match session {
        None => Err(AuthError::TokenNotFound),
        Some(s) => {
            if now < s.expired {
                Ok(s.user)
            } else {
                Err(AuthError::SessionExpired)
            }
        },
    }
}

/// Second step of authentication: the user found for the session's owner.
pub fn resolve_user(user: Option<UserRecord>) -> (r: Result<UserRecord, AuthError>)
    ensures
        user is None ==> r == Err::<UserRecord, AuthError>(AuthError::UserMissing),
        user matches Some(u) ==> r == Ok::<UserRecord, AuthError>(u),
{
    match user {
        None => Err(AuthError::UserMissing),
        Some(u) => Ok(u),
    }
}

} // verus!
