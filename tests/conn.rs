use chatoy::auth::AuthError;
use chatoy::channel::{ChannelEvent, CloseEvent, MsgEvent};
use chatoy::conn::{
    auth_finished, handshake_frame, opened, reader_frame, receive_frame, should_deliver, writer_event,
    AuthAck, HandshakeStep, InFrame, LookupError, Phase, ReaderStep, WriterStep,
};
use chatoy::directory::Directory;
use chatoy::msg::{Msg, MsgContent, TextMsg};
use chatoy::records::{SessionRecord, UserRecord, UserStatus};
use chatoy::relay::Relay;

fn user(id: i32, name: &str) -> UserRecord {
    UserRecord {
        id,
        username: name.to_string(),
        nickname: name.to_string(),
        password: String::new(),
        status: UserStatus::Active,
    }
}

fn session(token: &str, user: i32, expired: i64) -> SessionRecord {
    SessionRecord { token: token.to_string(), user, agent: "test".to_string(), generated: 0, expired }
}

fn text(t: &str) -> MsgContent {
    MsgContent::Text(TextMsg { text: t.to_string() })
}

/// Runs the handshake of one connection over `frames`; gives the final phase and the acks sent.
fn handshake(d: &Directory, frames: Vec<InFrame>, now: i64) -> (Phase, Vec<AuthAck>) {
    let mut phase = opened(Phase::Connecting);
    let mut acks = Vec::new();
    let mut frames = frames.into_iter();
    loop {
        match handshake_frame(&phase, frames.next()) {
            HandshakeStep::Ignore => {},
            HandshakeStep::Close => return (Phase::Closed, acks),
            HandshakeStep::Authenticate(token) => {
                let result = d.auth(&token, now).map(|u| u.id);
                let (next, ack) = auth_finished(token, result);
                acks.push(ack);
                phase = next;
                if let Phase::Authenticated { .. } = phase {
                    return (phase, acks);
                }
            },
        }
    }
}

/// What the writer of (`user`, `token`) sends from handle `id`.
fn deliveries(relay: &mut Relay<ChannelEvent>, id: usize, d: &Directory, user: i32, token: &str) -> Vec<Msg> {
    let token = token.to_string();
    let mut out = Vec::new();
    while let Some(event) = relay.recv(id) {
        match writer_event(&token, event) {
            WriterStep::Skip => {},
            WriterStep::Stop => break,
            WriterStep::CheckMembership(room) => {
                if should_deliver(Ok(d.user_in_room(user, room))) {
                    if let ChannelEvent::Msg(m) = event {
                        out.push(m.msg.clone());
                    }
                }
            },
        }
    }
    out
}

fn chat_directory() -> Directory {
    let mut d = Directory::new();
    d.add_user(user(1, "a"));
    d.add_user(user(2, "b"));
    d.add_user(user(3, "c"));
    d.add_session(session("T1", 1, 10_000));
    d.add_session(session("T2", 2, 10_000));
    d.add_session(session("T3", 3, 10_000));
    d.add_session(session("OLD", 1, 50));
    d.join_room(1, 7, 0);
    d.join_room(3, 7, 0);
    d
}

#[test]
fn message_reaches_members_only() {
    let d = chat_directory();
    let mut relay = Relay::new(256);
    let (pa, acks) = handshake(&d, vec![InFrame::Auth { token: "T1".to_string() }], 100);
    assert_eq!(pa, Phase::Authenticated { user: 1, token: "T1".to_string() });
    assert_eq!(acks, vec![AuthAck { code: 0, msg: String::new() }]);
    let (pb, _) = handshake(&d, vec![InFrame::Auth { token: "T2".to_string() }], 100);
    assert_eq!(pb, Phase::Authenticated { user: 2, token: "T2".to_string() });
    let wa = relay.subscribe();
    let wb = relay.subscribe();
    let wc = relay.subscribe();
    let frame = InFrame::Msg { uuid: 0x1111_1111_1111_1111_1111_1111_1111_1111, room: 7, data: text("hi") };
    match reader_frame(1, Some(frame), 500) {
        ReaderStep::Publish(m) => relay.publish(ChannelEvent::new_msg(m)),
        other => panic!("unexpected {:?}", other),
    }
    let got_a = deliveries(&mut relay, wa, &d, 1, "T1");
    assert_eq!(got_a.len(), 1);
    assert_eq!(got_a[0].sender, 1);
    assert_eq!(got_a[0].data, text("hi"));
    assert_eq!(got_a[0].room, 7);
    assert!(!got_a[0].modified);
    assert_eq!(got_a[0].sent, 500);
    assert!(deliveries(&mut relay, wb, &d, 2, "T2").is_empty());
    assert_eq!(deliveries(&mut relay, wc, &d, 3, "T3").len(), 1);
}

#[test]
fn expired_token_keeps_waiting() {
    let d = chat_directory();
    let (phase, acks) = handshake(&d, vec![InFrame::Auth { token: "OLD".to_string() }], 100);
    assert_eq!(phase, Phase::Closed);
    assert_eq!(acks, vec![AuthAck { code: 1, msg: "Login status expired!".to_string() }]);
    let (next, ack) = auth_finished("OLD".to_string(), Err(AuthError::SessionExpired));
    assert_eq!(next, Phase::Authenticating);
    assert_eq!(ack, AuthAck { code: 1, msg: "Login status expired!".to_string() });
    assert_eq!(
        handshake_frame(&next, Some(InFrame::Auth { token: "T1".to_string() })),
        HandshakeStep::Authenticate("T1".to_string())
    );
}

#[test]
fn retry_after_failed_auth() {
    let d = chat_directory();
    let frames = vec![
        InFrame::Auth { token: "nope".to_string() },
        InFrame::Auth { token: "T2".to_string() },
    ];
    let (phase, acks) = handshake(&d, frames, 100);
    assert_eq!(phase, Phase::Authenticated { user: 2, token: "T2".to_string() });
    assert_eq!(acks[0], AuthAck { code: 1, msg: "Please login first!".to_string() });
    assert_eq!(acks[1], AuthAck { code: 0, msg: String::new() });
}

#[test]
fn handshake_ignores_other_frames() {
    let p = Phase::Authenticating;
    assert_eq!(handshake_frame(&p, Some(InFrame::Empty)), HandshakeStep::Ignore);
    assert_eq!(handshake_frame(&p, Some(InFrame::Malformed)), HandshakeStep::Ignore);
    let m = InFrame::Msg { uuid: 1, room: 1, data: text("x") };
    assert_eq!(handshake_frame(&p, Some(m)), HandshakeStep::Ignore);
    assert_eq!(handshake_frame(&p, None), HandshakeStep::Close);
    let done = Phase::Authenticated { user: 1, token: "T".to_string() };
    assert_eq!(handshake_frame(&done, Some(InFrame::Auth { token: "T".to_string() })), HandshakeStep::Ignore);
}

#[test]
fn opened_moves_to_authenticating() {
    assert_eq!(opened(Phase::Connecting), Phase::Authenticating);
    assert_eq!(opened(Phase::Closed), Phase::Closed);
}

#[test]
fn reader_steps() {
    assert_eq!(reader_frame(5, None, 0), ReaderStep::Stop);
    assert_eq!(reader_frame(5, Some(InFrame::Empty), 0), ReaderStep::Ignore);
    assert_eq!(reader_frame(5, Some(InFrame::Malformed), 0), ReaderStep::Ignore);
    assert_eq!(reader_frame(5, Some(InFrame::Auth { token: "T".to_string() }), 0), ReaderStep::Ignore);
    let m = InFrame::Msg { uuid: 42, room: 3, data: text("yo") };
    assert_eq!(
        reader_frame(5, Some(m), 77),
        ReaderStep::Publish(Msg { uuid: 42, sender: 5, room: 3, data: text("yo"), sent: 77, modified: false })
    );
}

#[test]
fn received_frame_is_stamped_now() {
    let m = InFrame::Msg { uuid: 42, room: 3, data: text("yo") };
    match receive_frame(5, Some(m)) {
        ReaderStep::Publish(msg) => {
            assert_eq!(msg.sender, 5);
            assert!(msg.sent > 1_600_000_000_000);
        },
        other => panic!("unexpected {:?}", other),
    }
}

#[test]
fn writer_steps() {
    let token = "T1".to_string();
    let close_mine = ChannelEvent::new_close("T1".to_string());
    assert_eq!(close_mine, ChannelEvent::Close(CloseEvent { token: "T1".to_string() }));
    assert_eq!(writer_event(&token, &close_mine), WriterStep::Stop);
    assert_eq!(writer_event(&token, &ChannelEvent::new_close("T9".to_string())), WriterStep::Skip);
    let msg = Msg { uuid: 1, sender: 2, room: 11, data: text("a"), sent: 0, modified: false };
    let ev = ChannelEvent::new_msg(msg.clone());
    assert_eq!(ev, ChannelEvent::Msg(MsgEvent { msg }));
    assert_eq!(writer_event(&token, &ev), WriterStep::CheckMembership(11));
}

#[test]
fn failed_membership_check_drops() {
    assert!(should_deliver(Ok(true)));
    assert!(!should_deliver(Ok(false)));
    assert!(!should_deliver(Err(LookupError)));
}
