//! The per-connection state machine. The connection first runs a handshake
//! in which only Auth frames count; once authenticated, a reader turns chat
//! frames into messages stamped with the authenticated sender, and a writer
//! passes on from the relay only what the user's rooms should see. The
//! functions here decide; the caller performs the I/O they ask for.

use vstd::prelude::*;
use crate::auth::{auth_error_text, AuthError};
use crate::channel::ChannelEvent;
use crate::clock::now_millis;
use crate::msg::{Msg, MsgContent};
use crate::relay::Relay;

verus! {

/// A frame received from the client, already decoded from its wire form.
#[derive(Clone, Debug, PartialEq, Eq)]
pub enum InFrame {
    /// An empty or keep-alive frame.
    Empty,
    /// A frame that is not a well-formed envelope.
    Malformed,
    Auth { token: String },
    Msg { uuid: u128, room: i32, data: MsgContent },
}

/// The record store could not answer.
#[derive(Clone, Copy, Debug, PartialEq, Eq, Structural)]
pub struct LookupError;

#[derive(Clone, Debug, PartialEq, Eq)]
pub enum Phase {
    Connecting,
    Authenticating,
    Authenticated { user: i32, token: String },
    Closed,
}

/// The acknowledgement of an Auth frame: code 0 on success, 1 with the reason otherwise.
#[derive(Clone, Debug, PartialEq, Eq)]
pub struct AuthAck {
    pub code: i32,
    pub msg: String,
}

#[derive(Clone, Debug, PartialEq, Eq)]
pub enum HandshakeStep {
    /// Keep waiting for an Auth frame.
    Ignore,
    /// Look the token up and report back through `auth_finished`.
    Authenticate(String),
    /// The stream ended before authentication: close without starting the relay tasks.
    Close,
}

#[derive(Clone, Debug, PartialEq, Eq)]
pub enum ReaderStep {
    Ignore,
    Publish(Msg),
    Stop,
}

#[derive(Clone, Copy, Debug, PartialEq, Eq, Structural)]
pub enum WriterStep {
    /// Not for this connection.
    Skip,
    /// A message for `room`: deliver it if the user is a member.
    CheckMembership(i32),
    /// The session is closing: end the writer.
    Stop,
}

/// The phase once the duplex stream is established.
pub fn opened(phase: Phase) -> (p: Phase)
    ensures
        p == if phase is Connecting {
            Phase::Authenticating
        } else {
            phase
        },
{
    match phase {
        Phase::Connecting => Phase::Authenticating,
        other => other,
    }
}

pub open spec fn handshake_spec(phase: Phase, frame: Option<InFrame>) -> HandshakeStep {
    match frame {
        None => HandshakeStep::Close,
        Some(InFrame::Auth { token }) => if phase is Authenticating {
            HandshakeStep::Authenticate(token)
        } else {
            HandshakeStep::Ignore
        },
        Some(_) => HandshakeStep::Ignore,
    }
}

/// What to do with the next inbound frame (`None`: the stream ended) during the handshake.
pub fn handshake_frame(phase: &Phase, frame: Option<InFrame>) -> (s: HandshakeStep)
    ensures
        s == handshake_spec(*phase, frame),
{
    match frame {
        None => HandshakeStep::Close,
        Some(InFrame::Auth { token }) => {
            if let Phase::Authenticating = phase {
                HandshakeStep::Authenticate(token)
            } else {
                HandshakeStep::Ignore
            }
        },
        Some(_) => HandshakeStep::Ignore,
    }
}

/// The phase and acknowledgement after authenticating `token` gave `result`
/// (the user's id, or why not).
pub fn auth_finished(token: String, result: Result<i32, AuthError>) -> (r: (Phase, AuthAck))
    ensures
        result matches Ok(user) ==> r.0 == (Phase::Authenticated { user, token }) && r.1.code == 0
            && r.1.msg@ == Seq::<char>::empty(),
        result matches Err(e) ==> r.0 == Phase::Authenticating && r.1.code == 1 && r.1.msg@
            == auth_error_text(e),
{
    match result {
        Ok(user) => (Phase::Authenticated { user, token }, AuthAck { code: 0, msg: String::new() }),
        Err(e) => (Phase::Authenticating, AuthAck { code: 1, msg: e.message() }),
    }
}

pub open spec fn reader_spec(user: i32, frame: Option<InFrame>, now: i64) -> ReaderStep {
    match frame {
        None => ReaderStep::Stop,
        Some(InFrame::Msg { uuid, room, data }) => ReaderStep::Publish(
            Msg { uuid, sender: user, room, data, sent: now, modified: false },
        ),
        Some(_) => ReaderStep::Ignore,
    }
}

/// What the reader of `user`'s connection does with the next inbound frame
/// (`None`: the stream ended), received at `now`. The sender is always the
/// authenticated user, whatever the client sent.
pub fn reader_frame(user: i32, frame: Option<InFrame>, now: i64) -> (s: ReaderStep)
    ensures
        s == reader_spec(user, frame, now),
{
    match frame {
        None => ReaderStep::Stop,
        Some(InFrame::Msg { uuid, room, data }) => ReaderStep::Publish(
            Msg { uuid, sender: user, room, data, sent: now, modified: false },
        ),
        Some(_) => ReaderStep::Ignore,
    }
}

/// The reader's step for a frame received now: as `reader_frame`, stamped
/// with the clock's reading.
pub fn receive_frame(user: i32, frame: Option<InFrame>) -> (s: ReaderStep)
    ensures
        exists|now: i64| s == #[trigger] reader_spec(user, frame, now),
{
    let now = now_millis();
    reader_frame(user, frame, now)
}

pub open spec fn writer_spec(token: Seq<char>, event: ChannelEvent) -> WriterStep {
    match event {
        ChannelEvent::Msg(m) => WriterStep::CheckMembership(m.msg.room),
        ChannelEvent::Close(c) => if c.token@ == token {
            WriterStep::Stop
        } else {
            WriterStep::Skip
        },
    }
}

/// What the writer of a connection opened with `token` does with an event from the relay.
pub fn writer_event(token: &String, event: &ChannelEvent) -> (s: WriterStep)
    ensures
        s == writer_spec(token@, *event),
{
    match event {
        ChannelEvent::Msg(m) => WriterStep::CheckMembership(m.msg.room),
        ChannelEvent::Close(c) => {
            if c.token == *token {
                WriterStep::Stop
            } else {
                WriterStep::Skip
            }
        },
    }
}

/// Whether the writer of a connection opened with `token` sends `event` to its
/// client, given the membership check's answer.
pub open spec fn delivers(token: Seq<char>, event: ChannelEvent, member: Result<bool, LookupError>) -> bool {
    writer_spec(token, event) is CheckMembership && member == Ok::<bool, LookupError>(true)
}

/// Whether to deliver after the membership check answered `member`; a failed
/// check drops the message and the writer goes on.
pub fn should_deliver(member: Result<bool, LookupError>) -> (b: bool)
    ensures
        b == (member == Ok::<bool, LookupError>(true)),
{
    match member {
        Ok(b) => b,
        Err(_) => false,
    }
}

/// Delivery: every event waiting for a subscriber was published after it
/// subscribed, in publish order; of those, a chat message for room `R` is
/// delivered exactly when the membership check at delivery time says the
/// user is a member of `R`.
pub proof fn lemma_delivery(
    relay: &Relay<ChannelEvent>,
    id: int,
    token: Seq<char>,
    k: int,
    member: Result<bool, LookupError>,
)
    requires
        relay.wf(),
        relay.is_open(id),
        0 <= k < relay.pending(id).len(),
    ensures
        relay.joined_at(id) <= relay.published().len() - relay.pending(id).len() + k,
        relay.pending(id)[k] == relay.published()[relay.published().len() - relay.pending(id).len() + k],
        delivers(token, relay.pending(id)[k], member) <==> (relay.pending(id)[k] is Msg && member == Ok::<
            bool,
            LookupError,
        >(true)),
{
    crate::relay::lemma_no_backfill(relay, id);
}

} // verus!
