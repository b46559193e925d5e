//! Logging in: checking credentials against a stored user and opening a session.

use vstd::prelude::*;
use crate::api::{LoginResp, UserPayload};
use crate::clock::now_millis;
use crate::records::{SessionRecord, UserRecord, UserStatus};
use crate::token::{generate_token, is_hex_char, is_token};

verus! {

/// How long a session lives: 48 hours, in milliseconds.
pub const SESSION_TTL_MS: i64 = 172_800_000;

/// The BLAKE3 digest of a password's UTF-8 bytes, in lowercase hexadecimal.
pub uninterp spec fn digest_of(password: Seq<char>) -> Seq<char>;

/// Relies on blake3's `hash` and `Hash::to_hex`: the 32-byte digest of the
/// bytes, written as 64 lowercase hexadecimal characters.
#[verifier::external_body]
fn password_digest(password: &str) -> (r: String)
    ensures
        r@ == digest_of(password@),
        r@.len() == 64,
        forall|i: int| 0 <= i < r@.len() ==> is_hex_char(#[trigger] r@[i]),
{
    blake3::hash(password.as_bytes()).to_hex().to_string()
}

#[derive(Clone, Copy, Debug, PartialEq, Eq, Structural)]
pub enum LoginError {
    /// The records could not be read.
    Lookup,
    /// No active user has the name.
    NoSuchUser,
    Banned,
    WrongPassword,
    /// The new session could not be stored.
    SessionNotSaved,
}

pub open spec fn login_error_code(e: LoginError) -> i32 {
    match e {
        LoginError::Lookup => 1,
        LoginError::NoSuchUser => 2,
        LoginError::Banned => 3,
        LoginError::WrongPassword => 4,
        LoginError::SessionNotSaved => 5,
    }
}

pub open spec fn login_error_text(e: LoginError) -> Seq<char> {
    match e {
        LoginError::Lookup => "Error accessing database!"@,
        LoginError::NoSuchUser => "The user does not exist!"@,
        LoginError::Banned => "The user has been banned!"@,
        LoginError::WrongPassword => "Password error!"@,
        LoginError::SessionNotSaved => "Failed to insert new session into the database!"@,
    }
}

impl LoginError {
    pub fn code(&self) -> (c: i32)
        ensures
            c == login_error_code(*self),
    {
        match self {
            LoginError::Lookup => 1,
            LoginError::NoSuchUser => 2,
            LoginError::Banned => 3,
            LoginError::WrongPassword => 4,
            LoginError::SessionNotSaved => 5,
        }
    }

    pub fn message(&self) -> (s: String)
        ensures
            s@ == login_error_text(*self),
    {
        match self {
            LoginError::Lookup => String::from_str("Error accessing database!"),
            LoginError::NoSuchUser => String::from_str("The user does not exist!"),
            LoginError::Banned => String::from_str("The user has been banned!"),
            LoginError::WrongPassword => String::from_str("Password error!"),
            LoginError::SessionNotSaved => String::from_str("Failed to insert new session into the database!"),
        }
    }
}

/// The verdict on a login attempt against the user found by name (`None`: no
/// such user), given the digest of the password offered. Pending accounts
/// cannot log in and are reported as missing.
pub open spec fn credentials_spec(user: Option<UserRecord>, digest: Seq<char>) -> Result<(), LoginError> {
    match user {
        None => Err(LoginError::NoSuchUser),
        Some(u) => if u.status == UserStatus::Pending {
            Err(LoginError::NoSuchUser)
        } else if u.status == UserStatus::Banned {
            Err(LoginError::Banned)
        } else if u.password@ != digest {
            Err(LoginError::WrongPassword)
        } else {
            Ok(())
        },
    }
}

/// Checks a login attempt given the digest of the offered password.
pub fn check_credentials(user: Option<&UserRecord>, digest: &String) -> (r: Result<(), LoginError>)
    ensures
        r == credentials_spec(
            match user {
                Some(u) => Some(*u),
                None => None,
            },
            digest@,
        ),
{
    match user {
        None => Err(LoginError::NoSuchUser),
        Some(u) => {
            if u.status == UserStatus::Pending {
                Err(LoginError::NoSuchUser)
            } else if u.status == UserStatus::Banned {
                Err(LoginError::Banned)
            } else if u.password != *digest {
                Err(LoginError::WrongPassword)
            } else {
                Ok(())
            }
        },
    }
}

/// Checks a login attempt with the password as offered.
pub fn check_login(user: Option<&UserRecord>, password: &str) -> (r: Result<(), LoginError>)
    ensures
        r == credentials_spec(
            match user {
                Some(u) => Some(*u),
                None => None,
            },
            digest_of(password@),
        ),
{
    let digest = password_digest(password);
    check_credentials(user, &digest)
}

/// A new account for a registration: the nickname starts as the username and
/// only the password's digest is kept.
pub fn new_account(id: i32, payload: &UserPayload) -> (u: UserRecord)
    ensures
        u.id == id,
        u.username@ == payload.username@,
        u.nickname@ == payload.username@,
        u.password@ == digest_of(payload.password@),
        u.status == UserStatus::Active,
{
    UserRecord {
        id,
        username: payload.username.clone(),
        nickname: payload.username.clone(),
        password: password_digest(payload.password.as_str()),
        status: UserStatus::Active,
    }
}

/// The session record for `token`, issued to `user` at `now`; `None` when the
/// expiry would not fit in an `i64`.
pub fn new_session(token: String, user: i32, agent: String, now: i64) -> (r: Option<SessionRecord>)
    ensures
        r is None <==> now + SESSION_TTL_MS > i64::MAX,
        r matches Some(s) ==> s == (SessionRecord {
            token,
            user,
            agent,
            generated: now,
            expired: (now + SESSION_TTL_MS) as i64,
        }),
{
    if now > i64::MAX - SESSION_TTL_MS {
        None
    } else {
        Some(SessionRecord { token, user, agent, generated: now, expired: now + SESSION_TTL_MS })
    }
}

/// Opens a session for `user` now, under a freshly drawn token; `None` only
/// when the clock reads within 48 hours of the largest `i64`.
pub fn open_session(user: i32, agent: String) -> (r: Option<SessionRecord>)
    ensures
        r matches Some(s) ==> is_token(s.token@) && s.user == user && s.agent == agent && s.expired
            == s.generated + SESSION_TTL_MS,
{
    let token = generate_token();
    let now = now_millis();
    new_session(token, user, agent, now)
}

/// The reply to a login: the token and the user on success, else the error's code and text.
pub fn login_response(result: Result<(String, UserRecord), LoginError>) -> (r: LoginResp)
    ensures
        result matches Ok(p) ==> r == (LoginResp { code: 0, msg: p.0, user: Some(p.1) }),
        result matches Err(e) ==> r.code == login_error_code(e) && r.msg@ == login_error_text(e)
            && r.user is None,
{
    match result {
        Ok((token, user)) => LoginResp { code: 0, msg: token, user: Some(user) },
        Err(e) => LoginResp { code: e.code(), msg: e.message(), user: None },
    }
}

} // verus!
