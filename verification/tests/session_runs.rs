use roseline::session::{Session, ConnState, SendOutcome, FrameOutcome};

fn bring_up(session: &mut Session) {
    session.begin_connect();
    session.connect_succeeded();
    assert!(matches!(session.on_frame(true), FrameOutcome::LoginComplete));
    assert_eq!(session.state(), ConnState::Ready);
}

#[test]
fn rejects_sends_while_not_ready() {
    let mut session = Session::new();
    assert_eq!(session.state(), ConnState::Disconnected);

    // two callers race a request in while the client is reconnecting: both
    // are told at once that nothing reached the wire
    let first = session.send(true);
    let second = session.send(true);
    assert!(matches!(first, SendOutcome::NotConnected { token: 0 }));
    assert!(matches!(second, SendOutcome::NotConnected { token: 1 }));
    assert_eq!(session.pending(), 0);

    // after the client comes back up, both retried requests go through and
    // are answered in order
    bring_up(&mut session);
    assert!(matches!(session.send(true), SendOutcome::Enqueued { token: 2 }));
    assert!(matches!(session.send(true), SendOutcome::Enqueued { token: 3 }));
    assert!(matches!(session.on_frame(false), FrameOutcome::Delivered { token: 2 }));
    assert!(matches!(session.on_frame(false), FrameOutcome::Delivered { token: 3 }));
}

#[test]
fn responses_pair_with_waiters_in_order() {
    let mut session = Session::new();
    bring_up(&mut session);

    let mut tokens = Vec::new();
    for _ in 0..4 {
        match session.send(true) {
            SendOutcome::Enqueued { token } => tokens.push(token),
            _ => panic!("send while ready must enqueue"),
        }
    }
    assert_eq!(session.pending(), 4);

    for expected in tokens {
        match session.on_frame(false) {
            FrameOutcome::Delivered { token } => assert_eq!(token, expected),
            _ => panic!("a pending waiter must take the frame"),
        }
    }
    assert_eq!(session.pending(), 0);
}

#[test]
fn disconnect_aborts_every_waiter_once() {
    let mut session = Session::new();
    bring_up(&mut session);

    let mut tokens = Vec::new();
    for _ in 0..3 {
        match session.send(true) {
            SendOutcome::Enqueued { token } => tokens.push(token),
            _ => panic!("send while ready must enqueue"),
        }
    }

    let aborted = session.disconnect();
    assert_eq!(aborted, tokens);
    assert_eq!(session.pending(), 0);
    assert_eq!(session.state(), ConnState::Disconnected);
}

#[test]
fn write_failure_drops_the_queue() {
    let mut session = Session::new();
    bring_up(&mut session);

    let queued = match session.send(true) {
        SendOutcome::Enqueued { token } => token,
        _ => panic!("send while ready must enqueue"),
    };

    match session.send(false) {
        SendOutcome::WriteFailed { token, aborted } => {
            assert_eq!(token, queued + 1);
            assert_eq!(aborted, vec![queued]);
        },
        _ => panic!("a failed write must abort"),
    }
    assert_eq!(session.state(), ConnState::Disconnected);
}

#[test]
fn backoff_grows_additively_to_the_ceiling() {
    let mut session = Session::new();
    assert_eq!(session.backoff_ms(), 0);

    for expected in [1000, 2000, 3000, 4000, 5000, 5000] {
        session.begin_connect();
        session.connect_failed();
        assert_eq!(session.backoff_ms(), expected);
    }

    bring_up(&mut session);
    assert_eq!(session.backoff_ms(), 0);
}

#[test]
fn unsolicited_frames_are_discarded() {
    let mut session = Session::new();
    session.begin_connect();
    session.connect_succeeded();
    // a frame other than `ok` while logging in changes nothing
    assert!(matches!(session.on_frame(false), FrameOutcome::Discarded));
    assert_eq!(session.state(), ConnState::LoggingIn);
    assert!(matches!(session.on_frame(true), FrameOutcome::LoginComplete));
    // once ready with an empty queue, even `ok` is discarded
    assert!(matches!(session.on_frame(true), FrameOutcome::Discarded));
}
