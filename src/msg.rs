//! Chat messages as they travel over the relay.

use vstd::prelude::*;

verus! {

#[derive(Clone, Debug, PartialEq, Eq)]
pub struct TextMsg {
    pub text: String,
}

/// The content of a message, one variant per kind.
#[derive(Clone, Debug, PartialEq, Eq)]
pub enum MsgContent {
    Text(TextMsg),
}

/// A message in flight. The identifier is the client's, the sender and the
/// time of receipt (milliseconds since the Unix epoch) are the server's.
#[derive(Clone, Debug, PartialEq, Eq)]
pub struct Msg {
    pub uuid: u128,
    pub sender: i32,
    pub room: i32,
    pub data: MsgContent,
    pub sent: i64,
    pub modified: bool,
}

} // verus!
