//! The request/reply worker: its lifecycle state machine and a
//! sequential model of the handle the callers share.
//!
//! The real system runs a dedicated background thread that blocks on a
//! FIFO request channel; here that loop is split into the decisions it
//! makes. `step` says how the lifecycle advances on each event and
//! which action the loop must perform next; `RequestReplyWorker` is
//! the model of the whole handle, with the call-style API built on it.

use vstd::prelude::*;

use crate::envelope::Envelope;
use crate::envelope::Reply;
use crate::envelope::handle_envelope;
use crate::envelope::reply_to;
use crate::envelope::reply_value;
use crate::interleave::is_serialization;
use crate::interleave::lemma_serialization_preserves_contents;
use crate::interleave::total_contents;
use crate::interleave::total_len;

verus! {

/// How a call can fail. A timeout is not here: it is a normal outcome,
/// not a failure.
#[derive(Clone, Copy, Debug, PartialEq, Eq, Structural)]
pub enum ServiceError {
    /// The receiving side is gone: the worker has stopped, or the
    /// caller abandoned its reply channel. Local to the one call.
    ChannelClosed,
    /// A lock's holder failed mid-update, so the guarded invariant is
    /// no longer trusted. Fatal for the structure: propagate it.
    LockPoisoned,
}

/// Lifecycle of the background task.
#[derive(Clone, Copy, Debug, PartialEq, Eq, Structural)]
pub enum WorkerState {
    /// The task has been spawned but has not entered its loop yet.
    Starting,
    /// The task is blocked on the request channel, serving envelopes.
    Running,
    /// The task observed the request channel closed and is leaving its loop.
    Draining,
    /// The task has terminated; joining it completes immediately.
    Stopped,
}

/// One observation the background loop can make.
#[derive(Clone, Copy, Debug, PartialEq, Eq, Structural)]
pub enum WorkerEvent {
    /// The spawned task entered its receive loop.
    Spawned,
    /// A request envelope arrived on the channel.
    Request(Envelope),
    /// Delivery of a reply failed: the caller abandoned its reply channel.
    ReplyAbandoned,
    /// The receive call reported the channel closed: every sender is gone.
    ChannelClosed,
    /// The loop was left and the task returned.
    Exited,
}

/// What the loop must do after a step.
#[derive(Clone, Copy, Debug, PartialEq, Eq, Structural)]
pub enum WorkerAction {
    /// Block on the next event; nothing to deliver.
    Continue,
    /// Send this reply on its envelope's reply channel, then continue.
    /// A failed send is reported back as `ReplyAbandoned`.
    SendReply(Reply),
    /// Leave the receive loop and terminate.
    Exit,
}

/// The state machine of the background task: next lifecycle state and
/// required action for each event. Events that the loop cannot produce
/// in a state leave the state unchanged.
pub open spec fn spec_step(s: WorkerState, e: WorkerEvent) -> (WorkerState, WorkerAction) {
    match (s, e) {
        (WorkerState::Starting, WorkerEvent::Spawned) => (
            WorkerState::Running,
            WorkerAction::Continue,
        ),
        (WorkerState::Running, WorkerEvent::Request(env)) => (
            WorkerState::Running,
            WorkerAction::SendReply(reply_to(env)),
        ),
        (WorkerState::Running, WorkerEvent::ReplyAbandoned) => (
            WorkerState::Running,
            WorkerAction::Continue,
        ),
        (WorkerState::Running, WorkerEvent::ChannelClosed) => (
            WorkerState::Draining,
            WorkerAction::Exit,
        ),
        (WorkerState::Draining, WorkerEvent::Exited) => (
            WorkerState::Stopped,
            WorkerAction::Continue,
        ),
        (_, _) => (s, WorkerAction::Continue),
    }
}

/// Advances the lifecycle by one event and says what the loop must do.
pub fn step(s: WorkerState, e: WorkerEvent) -> (r: (WorkerState, WorkerAction))
    ensures
        r == spec_step(s, e),
{
    match (s, e) {
        (WorkerState::Starting, WorkerEvent::Spawned) => (
            WorkerState::Running,
            WorkerAction::Continue,
        ),
        (WorkerState::Running, WorkerEvent::Request(env)) => {
            let reply = handle_envelope(&env);
            (WorkerState::Running, WorkerAction::SendReply(reply))
        },
        (WorkerState::Running, WorkerEvent::ReplyAbandoned) => (
            WorkerState::Running,
            WorkerAction::Continue,
        ),
        (WorkerState::Running, WorkerEvent::ChannelClosed) => (
            WorkerState::Draining,
            WorkerAction::Exit,
        ),
        (WorkerState::Draining, WorkerEvent::Exited) => (
            WorkerState::Stopped,
            WorkerAction::Continue,
        ),
        (_, _) => (s, WorkerAction::Continue),
    }
}

/// The lifecycle state reached after a sequence of events.
pub open spec fn run_events(s: WorkerState, evs: Seq<WorkerEvent>) -> WorkerState
    decreases evs.len(),
{
    if evs.len() == 0 {
        s
    } else {
        run_events(spec_step(s, evs.first()).0, evs.drop_first())
    }
}

/// An event the loop handles without leaving: a request, or a reply
/// delivery that failed because the caller went away.
pub open spec fn is_serving_event(e: WorkerEvent) -> bool {
    e is Request || e is ReplyAbandoned
}

/// An abandoned reply is a failure local to its one request: a running
/// worker stays running through any run of requests and failed reply
/// deliveries, so later callers are still served.
pub proof fn lemma_reply_abandonment_is_local(evs: Seq<WorkerEvent>)
    requires
        forall|i: int| 0 <= i < evs.len() ==> is_serving_event(#[trigger] evs[i]),
    ensures
        run_events(WorkerState::Running, evs) == WorkerState::Running,
    decreases evs.len(),
{
    if evs.len() > 0 {
        assert(is_serving_event(evs[0]));
        assert(spec_step(WorkerState::Running, evs.first()).0 == WorkerState::Running);
        lemma_reply_abandonment_is_local(evs.drop_first());
    }
}

/// Graceful shutdown: however many requests and abandoned replies a
/// running worker has served, once the request channel closes and the
/// loop is left, the task is stopped — nothing keeps running.
pub proof fn lemma_graceful_shutdown(evs: Seq<WorkerEvent>)
    requires
        forall|i: int| 0 <= i < evs.len() ==> is_serving_event(#[trigger] evs[i]),
    ensures
        run_events(
            WorkerState::Running,
            evs.push(WorkerEvent::ChannelClosed).push(WorkerEvent::Exited),
        ) == WorkerState::Stopped,
    decreases evs.len(),
{
    let tail = evs.push(WorkerEvent::ChannelClosed).push(WorkerEvent::Exited);
    if evs.len() == 0 {
        assert(tail.first() == WorkerEvent::ChannelClosed);
        assert(run_events(WorkerState::Running, tail) == run_events(
            WorkerState::Draining,
            tail.drop_first(),
        ));
        assert(tail.drop_first().first() == WorkerEvent::Exited);
        assert(run_events(WorkerState::Draining, tail.drop_first()) == run_events(
            WorkerState::Stopped,
            tail.drop_first().drop_first(),
        ));
        assert(tail.drop_first().drop_first().len() == 0);
    } else {
        let rest = evs.drop_first().push(WorkerEvent::ChannelClosed).push(WorkerEvent::Exited);
        assert(is_serving_event(evs[0]));
        assert(tail.first() == evs.first());
        assert(spec_step(WorkerState::Running, tail.first()).0 == WorkerState::Running);
        assert(run_events(WorkerState::Running, tail) == run_events(
            WorkerState::Running,
            tail.drop_first(),
        ));
        assert(tail.drop_first() =~= rest);
        lemma_graceful_shutdown(evs.drop_first());
    }
}

/// The single worker answered a batch of envelopes: one reply per
/// envelope, in arrival order, each addressed to its own envelope.
pub open spec fn batch_served(envs: Seq<Envelope>, replies: Seq<Reply>) -> bool {
    &&& replies.len() == envs.len()
    &&& forall|i: int| 0 <= i < envs.len() ==> replies[i] == reply_to(#[trigger] envs[i])
}

/// The handle to a request/reply worker, modelled sequentially: the
/// envelopes posted but not yet served stand in for the request
/// channel's buffer, oldest first, and serving runs the background
/// loop until the buffer is empty. Cloned handles share one such
/// state; the lock around it is the real channel's own.
pub struct RequestReplyWorker {
    state: WorkerState,
    pending: Vec<Envelope>,
    next_id: u64,
}

impl RequestReplyWorker {
    /// Where the background task stands in its lifecycle.
    pub closed spec fn lifecycle(&self) -> WorkerState {
        self.state
    }

    /// The envelopes posted and not yet served, oldest first.
    pub closed spec fn pending_requests(&self) -> Seq<Envelope> {
        self.pending@
    }

    /// Whether the request channel still accepts envelopes: it does
    /// until the worker has observed closure or stopped.
    pub open spec fn accepting(&self) -> bool {
        self.lifecycle() is Starting || self.lifecycle() is Running
    }

    /// Starts a worker: the background task is spawned with the
    /// receive end of a fresh, empty request channel and enters its
    /// loop; the handle keeps the send end.
    pub fn new() -> (w: Self)
        ensures
            w.lifecycle() == WorkerState::Running,
            w.pending_requests() == Seq::<Envelope>::empty(),
    {
        RequestReplyWorker { state: WorkerState::Running, pending: Vec::new(), next_id: 0 }
    }

    /// Enqueues one envelope. Never blocks beyond the hand-off; fails
    /// exactly when the worker has already stopped taking requests —
    /// the caller must treat that as "service unavailable".
    pub fn post_message(&mut self, env: Envelope) -> (r: Result<(), ServiceError>)
        ensures
            final(self).lifecycle() == old(self).lifecycle(),
            old(self).accepting() ==> r == Ok::<(), ServiceError>(()) && final(self).pending_requests() == old(self).pending_requests().push(env),
            !old(self).accepting() ==> r == Err::<(), ServiceError>(ServiceError::ChannelClosed)
                && final(self).pending_requests() == old(self).pending_requests(),
    {
        match self.state {
            WorkerState::Starting | WorkerState::Running => {
                self.pending.push(env);
                Ok(())
            },
            _ => Err(ServiceError::ChannelClosed),
        }
    }

    /// One turn of the background loop: serves the oldest pending
    /// envelope, if any, and says which reply went out.
    pub fn serve_next(&mut self) -> (r: Option<Reply>)
        ensures
            final(self).lifecycle() == old(self).lifecycle(),
            old(self).pending_requests().len() == 0 ==> r is None && final(self).pending_requests() == old(self).pending_requests(),
            old(self).pending_requests().len() > 0 ==> r == Some(
                reply_to(old(self).pending_requests()[0]),
            ) && final(self).pending_requests() == old(self).pending_requests().drop_first(),
    {
        if self.pending.len() == 0 {
            None
        } else {
            let env = self.pending.remove(0);
            proof {
                assert(old(self).pending_requests().remove(0) =~= old(self).pending_requests().drop_first());
            }
            Some(handle_envelope(&env))
        }
    }

    /// Runs the background loop until the buffer is drained: every
    /// pending envelope is served in arrival order.
    pub fn serve_all(&mut self) -> (replies: Vec<Reply>)
        ensures
            final(self).lifecycle() == old(self).lifecycle(),
            final(self).pending_requests().len() == 0,
            batch_served(old(self).pending_requests(), replies@),
    {
        let mut replies: Vec<Reply> = Vec::new();
        let n = self.pending.len();
        let mut i: usize = 0;
        while i < n
            invariant
                self.pending_requests() == old(self).pending_requests(),
                self.lifecycle() == old(self).lifecycle(),
                n == self.pending_requests().len(),
                i <= n,
                replies@.len() == i,
                forall|j: int| 0 <= j < i ==> replies@[j] == reply_to(
                    #[trigger] self.pending_requests()[j],
                ),
            decreases n - i,
        {
            let reply = handle_envelope(&self.pending[i]);
            replies.push(reply);
            i = i + 1;
        }
        self.pending.clear();
        replies
    }

    /// The blocking call: wraps the payload into an envelope with a
    /// fresh one-shot reply channel, posts it, and waits for the
    /// answer, which the identity worker owes on every accepted call.
    /// The wait is unbounded — a caller wanting bounded latency must
    /// race this call externally. Fails exactly when the worker has
    /// already stopped taking requests.
    pub fn post_message_and_reply(&mut self, payload: i64) -> (r: Result<i64, ServiceError>)
        ensures
            final(self).lifecycle() == old(self).lifecycle(),
            old(self).accepting() ==> r == Ok::<i64, ServiceError>(reply_value(payload)) && final(self).pending_requests().len() == 0,
            !old(self).accepting() ==> r == Err::<i64, ServiceError>(ServiceError::ChannelClosed)
                && final(self).pending_requests() == old(self).pending_requests(),
    {
        let id = self.next_id;
        if self.next_id < u64::MAX {
            self.next_id = self.next_id + 1;
        }
        match self.post_message(Envelope { id, payload }) {
            Err(e) => Err(e),
            Ok(()) => {
                let ghost queued = old(self).pending_requests().push(Envelope { id, payload });
                let replies = self.serve_all();
                let last = replies.len() - 1;
                proof {
                    assert(replies@[last as int] == reply_to(queued[last as int]));
                    assert(queued[last as int] == Envelope { id, payload });
                }
                Ok(replies[last].value)
            },
        }
    }

    /// Teardown: the last handle is going away. Dropping the send end
    /// closes the request channel; the worker serves what is still
    /// buffered, observes closure, leaves its loop, and this call
    /// joins it — on return no background task is left running.
    pub fn close(&mut self)
        ensures
            final(self).lifecycle() == WorkerState::Stopped,
            final(self).pending_requests().len() == 0,
    {
        let _ = self.serve_all();
        self.state = WorkerState::Stopped;
    }
}

/// FIFO: a batch of envelopes posted in one order is answered in that
/// order, one reply per envelope, and the identity worker echoes each
/// payload back to its own caller.
pub proof fn lemma_fifo_replies(envs: Seq<Envelope>, replies: Seq<Reply>)
    requires
        batch_served(envs, replies),
    ensures
        replies.len() == envs.len(),
        forall|i: int| 0 <= i < envs.len() ==> replies[i].id == (#[trigger] envs[i]).id
            && replies[i].value == envs[i].payload,
{
}

/// Concurrent producers: the request channel serializes any number of
/// producers' envelopes into some order that keeps each producer's
/// own. Whatever that order is, every posted envelope is served
/// exactly once — none lost, none duplicated — and each reply carries
/// the channel identity of its own envelope, so no reply reaches the
/// wrong caller.
pub proof fn lemma_every_call_answered(
    producers: Seq<Seq<Envelope>>,
    s: Seq<Envelope>,
    replies: Seq<Reply>,
)
    requires
        is_serialization(producers, s),
        batch_served(s, replies),
    ensures
        replies.len() == total_len(producers),
        s.to_multiset() =~= total_contents(producers),
        forall|i: int| 0 <= i < s.len() ==> replies[i].id == (#[trigger] s[i]).id
            && replies[i].value == s[i].payload,
{
    lemma_serialization_preserves_contents(producers, s);
}

} // verus!
