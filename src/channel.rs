//! What the relay carries: chat messages, and notices that a session is closing.

use vstd::prelude::*;
use crate::msg::Msg;

verus! {

#[derive(Clone, Debug, PartialEq, Eq)]
pub struct MsgEvent {
    pub msg: Msg,
}

/// Tells every connection opened with `token` to stop delivering.
#[derive(Clone, Debug, PartialEq, Eq)]
pub struct CloseEvent {
    pub token: String,
}

#[derive(Clone, Debug, PartialEq, Eq)]
pub enum ChannelEvent {
    Msg(MsgEvent),
    Close(CloseEvent),
}

impl ChannelEvent {
    pub fn new_msg(msg: Msg) -> (e: Self)
        ensures
            e == ChannelEvent::Msg(MsgEvent { msg }),
    {
        ChannelEvent::Msg(MsgEvent { msg })
    }

    pub fn new_close(token: String) -> (e: Self)
        ensures
            e == ChannelEvent::Close(CloseEvent { token }),
    {
        ChannelEvent::Close(CloseEvent { token })
    }
}

} // verus!
