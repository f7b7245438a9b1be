//! The remote-client session state machine: one connection to the remote VN
//! service, a FIFO queue of pending waiters correlated positionally with
//! response frames, and an additive reconnect backoff.
//!
//! Each waiter is identified by a token handed out by `send`; the surrounding
//! runtime maps tokens to completion handles. A restart is modelled by
//! [`Session::disconnect`], which drains the queue and re-enters
//! `Disconnected` in one step.

use vstd::prelude::*;

verus! {

pub const BACKOFF_STEP_MS: u64 = 1000;

pub const BACKOFF_MAX_MS: u64 = 5000;

#[derive(PartialEq, Eq, Structural, Clone, Copy, Debug)]
pub enum ConnState {
    Disconnected,
    Connecting,
    LoggingIn,
    Ready,
}

/// Mathematical image of a session.
pub struct SessionModel {
    pub state: ConnState,
    pub queue: Seq<u64>,
    pub next_token: u64,
    pub backoff_ms: u64,
}

/// Queue tokens are handed out in increasing order and only while `Ready`.
pub open spec fn session_wf(m: SessionModel) -> bool {
    &&& (forall|i: int| 0 <= i < m.queue.len() ==> #[trigger] m.queue[i] < m.next_token)
    &&& (forall|i: int, j: int| 0 <= i < j < m.queue.len()
            ==> #[trigger] m.queue[i] < #[trigger] m.queue[j])
    &&& (m.state != ConnState::Ready ==> m.queue.len() == 0)
}

/// What `send` did with the request.
pub enum SendOutcome {
    /// The session was not `Ready`: the waiter completes at once with a
    /// not-connected error and nothing reaches the wire.
    NotConnected { token: u64 },
    /// The frame was written; the waiter now sits at the tail of the queue.
    Enqueued { token: u64 },
    /// The write failed: the waiter completes with the I/O error, every
    /// queued waiter is aborted, and the session restarts.
    WriteFailed { token: u64, aborted: Vec<u64> },
}

/// What a received frame meant.
pub enum FrameOutcome {
    /// The frame answers the oldest pending waiter.
    Delivered { token: u64 },
    /// An unsolicited `Ok` while logging in: the session is now `Ready`.
    LoginComplete,
    /// Any other unsolicited frame is discarded.
    Discarded,
}

/// Delivering one frame: the head waiter leaves the queue.
pub open spec fn spec_deliver_one(m: SessionModel) -> (SessionModel, u64) {
    (SessionModel { queue: m.queue.drop_first(), ..m }, m.queue[0])
}

/// Delivering `k` frames in a row, collecting the completed tokens in order.
pub open spec fn spec_run_frames(m: SessionModel, k: int) -> (SessionModel, Seq<u64>)
    decreases k,
{
    if k <= 0 {
        (m, Seq::empty())
    } else {
        let (m1, t) = spec_deliver_one(m);
        let (m2, rest) = spec_run_frames(m1, k - 1);
        (m2, seq![t] + rest)
    }
}

pub struct Session {
    state: ConnState,
    queue: Vec<u64>,
    next_token: u64,
    backoff_ms: u64,
}

impl View for Session {
    type V = SessionModel;

    closed spec fn view(&self) -> SessionModel {
        SessionModel {
            state: self.state,
            queue: self.queue@,
            next_token: self.next_token,
            backoff_ms: self.backoff_ms,
        }
    }
}

impl Session {
    pub open spec fn wf(&self) -> bool {
        session_wf(self@)
    }

    /// A fresh session: disconnected, no pending waiters, no backoff.
    pub fn new() -> (r: Session)
        ensures
            r.wf(),
            r@.state == ConnState::Disconnected,
            r@.queue =~= Seq::<u64>::empty(),
            r@.next_token == 0,
            r@.backoff_ms == 0,
    {
        Session {
            state: ConnState::Disconnected,
            queue: Vec::new(),
            next_token: 0,
            backoff_ms: 0,
        }
    }

    pub fn state(&self) -> (r: ConnState)
        ensures
            r == self@.state,
    {
        self.state
    }

    pub fn backoff_ms(&self) -> (r: u64)
        ensures
            r == self@.backoff_ms,
    {
        self.backoff_ms
    }

    pub fn pending(&self) -> (r: usize)
        ensures
            r == self@.queue.len(),
    {
        self.queue.len()
    }

    /// A connection attempt starts, after waiting out the current backoff.
    pub fn begin_connect(&mut self)
        requires
            old(self).wf(),
            old(self)@.state == ConnState::Disconnected,
        ensures
            final(self).wf(),
            final(self)@ == (SessionModel { state: ConnState::Connecting, ..old(self)@ }),
    {
        self.state = ConnState::Connecting;
    }

    /// The attempt or the login failed: back to `Disconnected`, with the
    /// backoff grown by one step up to its ceiling.
    pub fn connect_failed(&mut self)
        requires
            old(self).wf(),
            old(self)@.state == ConnState::Connecting
                || old(self)@.state == ConnState::LoggingIn,
        ensures
            final(self).wf(),
            final(self)@ == (SessionModel {
                state: ConnState::Disconnected,
                backoff_ms: if old(self)@.backoff_ms < BACKOFF_MAX_MS {
                    (old(self)@.backoff_ms + BACKOFF_STEP_MS) as u64
                } else {
                    old(self)@.backoff_ms
                },
                ..old(self)@
            }),
    {
        if self.backoff_ms < BACKOFF_MAX_MS {
            self.backoff_ms = self.backoff_ms + BACKOFF_STEP_MS;
        }
        self.state = ConnState::Disconnected;
    }

    /// The transport is up; the login request has been written.
    pub fn connect_succeeded(&mut self)
        requires
            old(self).wf(),
            old(self)@.state == ConnState::Connecting,
        ensures
            final(self).wf(),
            final(self)@ == (SessionModel { state: ConnState::LoggingIn, ..old(self)@ }),
    {
        self.state = ConnState::LoggingIn;
    }

    /// A caller submits a request; `write_ok` reports whether the frame
    /// reached the wire. A waiter is enqueued only after a successful write,
    /// and never without one.
    pub fn send(&mut self, write_ok: bool) -> (r: SendOutcome)
        requires
            old(self).wf(),
            old(self)@.next_token < u64::MAX,
        ensures
            final(self).wf(),
            old(self)@.state != ConnState::Ready ==> {
                &&& r matches SendOutcome::NotConnected { token } && token == old(self)@.next_token
                &&& final(self)@ == (SessionModel {
                    next_token: (old(self)@.next_token + 1) as u64,
                    ..old(self)@
                })
            },
            old(self)@.state == ConnState::Ready && write_ok ==> {
                &&& r matches SendOutcome::Enqueued { token } && token == old(self)@.next_token
                &&& final(self)@ == (SessionModel {
                    queue: old(self)@.queue.push(old(self)@.next_token),
                    next_token: (old(self)@.next_token + 1) as u64,
                    ..old(self)@
                })
            },
            old(self)@.state == ConnState::Ready && !write_ok ==> {
                &&& (r matches SendOutcome::WriteFailed { token, aborted }
                    && token == old(self)@.next_token && aborted@ == old(self)@.queue)
                &&& final(self)@ == (SessionModel {
                    state: ConnState::Disconnected,
                    queue: Seq::empty(),
                    next_token: (old(self)@.next_token + 1) as u64,
                    ..old(self)@
                })
            },
    {
        let token = self.next_token;
        self.next_token = self.next_token + 1;
        if !matches!(self.state, ConnState::Ready) {
            proof {
                assert(final(self)@ =~~= (SessionModel {
                    next_token: (old(self)@.next_token + 1) as u64,
                    ..old(self)@
                }));
            }
            return SendOutcome::NotConnected { token };
        }
        if write_ok {
            self.queue.push(token);
            proof {
                assert(final(self)@.queue =~= old(self)@.queue.push(old(self)@.next_token));
            }
            SendOutcome::Enqueued { token }
        } else {
            let mut aborted: Vec<u64> = Vec::new();
            core::mem::swap(&mut aborted, &mut self.queue);
            self.state = ConnState::Disconnected;
            proof {
                assert(final(self)@.queue =~= Seq::<u64>::empty());
            }
            SendOutcome::WriteFailed { token, aborted }
        }
    }

    /// A frame arrived. The oldest pending waiter receives it; with no
    /// pending waiter, an `Ok` completes the login, anything else is
    /// discarded.
    pub fn on_frame(&mut self, login_ok: bool) -> (r: FrameOutcome)
        requires
            old(self).wf(),
        ensures
            final(self).wf(),
            old(self)@.queue.len() > 0 ==> {
                &&& (r matches FrameOutcome::Delivered { token } && token == old(self)@.queue[0])
                &&& final(self)@ == spec_deliver_one(old(self)@).0
                &&& (r matches FrameOutcome::Delivered { token }
                    && token == spec_deliver_one(old(self)@).1)
            },
            old(self)@.queue.len() == 0 && old(self)@.state == ConnState::LoggingIn && login_ok
                ==> r == FrameOutcome::LoginComplete
                    && final(self)@ == (SessionModel {
                        state: ConnState::Ready,
                        backoff_ms: 0,
                        ..old(self)@
                    }),
            old(self)@.queue.len() == 0
                && !(old(self)@.state == ConnState::LoggingIn && login_ok)
                ==> r == FrameOutcome::Discarded && final(self)@ == old(self)@,
    {
        if self.queue.len() > 0 {
            let token = self.queue.remove(0);
            proof {
                assert(final(self)@.queue =~= old(self)@.queue.drop_first());
            }
            FrameOutcome::Delivered { token }
        } else if matches!(self.state, ConnState::LoggingIn) && login_ok {
            self.state = ConnState::Ready;
            self.backoff_ms = 0;
            FrameOutcome::LoginComplete
        } else {
            proof {
                assert(final(self)@ =~~= old(self)@);
            }
            FrameOutcome::Discarded
        }
    }

    /// A read error or end of stream: every pending waiter is aborted, in
    /// queue order and each exactly once, and the session is `Disconnected`.
    /// Nothing is ever resubmitted on the waiters' behalf.
    pub fn disconnect(&mut self) -> (r: Vec<u64>)
        requires
            old(self).wf(),
        ensures
            final(self).wf(),
            r@ == old(self)@.queue,
            r@.no_duplicates(),
            final(self)@ == (SessionModel {
                state: ConnState::Disconnected,
                queue: Seq::empty(),
                ..old(self)@
            }),
    {
        let mut aborted: Vec<u64> = Vec::new();
        core::mem::swap(&mut aborted, &mut self.queue);
        self.state = ConnState::Disconnected;
        proof {
            assert(final(self)@.queue =~= Seq::<u64>::empty());
            lemma_session_queue_distinct(old(self)@);
        }
        aborted
    }
}

/// The tokens waiting in a well-formed session are pairwise distinct: a
/// drained queue completes every waiter exactly once.
pub proof fn lemma_session_queue_distinct(m: SessionModel)
    requires
        session_wf(m),
    ensures
        m.queue.no_duplicates(),
{
    assert forall|i: int, j: int| 0 <= i < m.queue.len() && 0 <= j < m.queue.len() && i != j
        implies m.queue[i] != m.queue[j] by {
        if i < j {
            assert(m.queue[i] < m.queue[j]);
        } else {
            assert(m.queue[j] < m.queue[i]);
        }
    }
}

/// Positional correlation: with no error in between, the `i`-th received
/// response frame completes the `i`-th enqueued waiter, for every run of
/// `k` frames.
pub proof fn lemma_fifo_delivery(m: SessionModel, k: int)
    requires
        session_wf(m),
        0 <= k <= m.queue.len(),
    ensures
        spec_run_frames(m, k).0.queue =~= m.queue.skip(k),
        spec_run_frames(m, k).1.len() == k,
        forall|i: int| 0 <= i < k ==> #[trigger] spec_run_frames(m, k).1[i] == m.queue[i],
        session_wf(spec_run_frames(m, k).0),
    decreases k,
{
    if k > 0 {
        let (m1, t) = spec_deliver_one(m);
        assert(m1.queue =~= m.queue.skip(1));
        assert(session_wf(m1));
        lemma_fifo_delivery(m1, k - 1);
        assert(m1.queue.skip(k - 1) =~= m.queue.skip(k));
        let rest = spec_run_frames(m1, k - 1).1;
        assert forall|i: int| 0 <= i < k
            implies #[trigger] spec_run_frames(m, k).1[i] == m.queue[i] by {
            if i == 0 {
                assert(spec_run_frames(m, k).1[0] == t);
            } else {
                assert(spec_run_frames(m, k).1[i] == rest[i - 1]);
                assert(rest[i - 1] == m1.queue[i - 1]);
                assert(m1.queue[i - 1] == m.queue[i]);
            }
        }
    }
}

} // verus!
