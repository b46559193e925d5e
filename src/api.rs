//! Request and response bodies of the service's REST endpoints.

use vstd::prelude::*;
use crate::records::UserRecord;

verus! {

/// A status reply: code 0 on success, otherwise an error code and its reason.
#[derive(Clone, Debug, PartialEq, Eq)]
pub struct Resp {
    pub code: i32,
    pub msg: String,
}

/// Either the requested value or an error reply.
#[derive(Clone, Debug, PartialEq, Eq)]
pub enum ErrOr<T> {
    Res(T),
    Error(Resp),
}

/// Credentials sent to register or to log in.
#[derive(Clone, Debug, PartialEq, Eq)]
pub struct UserPayload {
    pub username: String,
    pub password: String,
}

/// The reply to a login: on success code 0, the new token in `msg` and the user.
#[derive(Clone, Debug, PartialEq, Eq)]
pub struct LoginResp {
    pub code: i32,
    pub msg: String,
    pub user: Option<UserRecord>,
}

#[derive(Clone, Debug, PartialEq, Eq)]
pub struct NewRoomPayload {
    pub token: String,
    pub name: String,
}

#[derive(Clone, Copy, Debug, PartialEq, Eq, Structural)]
pub struct NewRoomResp {
    pub id: i32,
}

#[derive(Clone, Debug, PartialEq, Eq)]
pub struct JoinRoomPayload {
    pub token: String,
}

} // verus!
