use vstd::prelude::*;
use crate::error::{AudioStreamError, status_of, is_server_error};

verus! {

/// Size of each read from the producer's output pipe.
pub const READ_BLOCK_SIZE: usize = 8192;

/// Number of chunks the relay queue holds before the producer waits.
pub const RELAY_CAPACITY: usize = 32;

/// One message of the relay queue: a block of output bytes, or the terminal
/// failure of the producer.
#[derive(Debug)]
pub enum StreamChunk {
    Data(Vec<u8>),
    Failure(AudioStreamError),
}

impl View for StreamChunk {
    /// The bytes of a data chunk, or the HTTP status of a failure.
    type V = Result<Seq<u8>, u16>;

    open spec fn view(&self) -> Result<Seq<u8>, u16> {
        match self {
            StreamChunk::Data(b) => Ok(b@),
            StreamChunk::Failure(e) => Err(status_of(*e)),
        }
    }
}

/// The bytes that a client receives from a sequence of queue messages: the
/// data chunks in order, up to the first failure.
pub open spec fn delivered_bytes(cs: Seq<Result<Seq<u8>, u16>>) -> Seq<u8>
    decreases cs.len(),
{
    if cs.len() == 0 {
        Seq::empty()
    } else {
        let prev = delivered_bytes(cs.drop_last());
        match cs.last() {
            Ok(b) => prev + b,
            Err(_) => prev,
        }
    }
}

/// Every message but the last is a data chunk.
pub open spec fn failure_only_last(cs: Seq<Result<Seq<u8>, u16>>) -> bool {
    forall|i: int| 0 <= i < cs.len() - 1 ==> (#[trigger] cs[i]) is Ok
}

/// The sequence ends with a failure.
pub open spec fn ends_in_failure(cs: Seq<Result<Seq<u8>, u16>>) -> bool {
    cs.len() > 0 && cs.last() is Err
}

/// What happened on the producer's side since the relay last decided.
#[derive(Debug)]
pub enum ProducerEvent {
    /// The producer process was started.
    Spawned,
    /// The producer process could not be started; holds the reason.
    SpawnFailed(String),
    /// A read of the output pipe returned these bytes; none means end of file.
    ReadDone(Vec<u8>),
    /// A read of the output pipe failed; holds the reason.
    ReadFailed(String),
    /// The last chunk handed to the queue was accepted.
    Delivered,
    /// The queue's consumer is gone.
    ConsumerGone,
    /// The producer exited, successfully or not.
    Exited(bool),
}

/// What the relay asks its driver to do next.
#[derive(Debug)]
pub enum ProducerAction {
    /// Read the next block of the output pipe.
    Read,
    /// Hand this chunk to the queue, waiting while the queue is full.
    Send(StreamChunk),
    /// Wait for the producer to exit.
    AwaitExit,
    /// Close the queue and release the pipe.
    Finish,
}

/// The life cycle of one relay.
#[derive(Debug, Clone, Copy, PartialEq, Eq)]
pub enum RelayPhase {
    /// The producer was not started yet.
    Idle,
    /// A read of the output pipe is due.
    Reading,
    /// A data chunk waits for room in the queue.
    Sending,
    /// End of file was seen; the exit status is due.
    Exiting,
    /// The terminal failure waits for room in the queue.
    Closing,
    /// The output was relayed in full.
    Completed,
    /// The failure was handed on and the relay stopped.
    Failed,
    /// The consumer left and the relay stopped.
    Abandoned,
}

/// The phase that follows `p` on event `e`. An event that a running phase
/// does not expect stops the relay: a closing relay ends as failed, any other
/// as abandoned. A stopped relay stays where it is.
pub open spec fn next_phase(p: RelayPhase, e: ProducerEvent) -> RelayPhase {
    match p {
        RelayPhase::Idle => match e {
            ProducerEvent::Spawned => RelayPhase::Reading,
            ProducerEvent::SpawnFailed(_) => RelayPhase::Closing,
            _ => RelayPhase::Abandoned,
        },
        RelayPhase::Reading => match e {
            ProducerEvent::ReadDone(b) => if b@.len() == 0 {
                RelayPhase::Exiting
            } else {
                RelayPhase::Sending
            },
            ProducerEvent::ReadFailed(_) => RelayPhase::Closing,
            _ => RelayPhase::Abandoned,
        },
        RelayPhase::Sending => match e {
            ProducerEvent::Delivered => RelayPhase::Reading,
            _ => RelayPhase::Abandoned,
        },
        RelayPhase::Exiting => match e {
            ProducerEvent::Exited(ok) => if ok {
                RelayPhase::Completed
            } else {
                RelayPhase::Closing
            },
            _ => RelayPhase::Abandoned,
        },
        RelayPhase::Closing => RelayPhase::Failed,
        _ => p,
    }
}

/// The action that the relay takes in phase `p` on event `e`.
pub open spec fn action_for(p: RelayPhase, e: ProducerEvent, a: ProducerAction) -> bool {
    match p {
        RelayPhase::Idle => match e {
            ProducerEvent::Spawned => a is Read,
            ProducerEvent::SpawnFailed(m) => a
                == ProducerAction::Send(StreamChunk::Failure(AudioStreamError::ProcessError(m))),
            _ => a is Finish,
        },
        RelayPhase::Reading => match e {
            ProducerEvent::ReadDone(b) => if b@.len() == 0 {
                a is AwaitExit
            } else {
                a == ProducerAction::Send(StreamChunk::Data(b))
            },
            ProducerEvent::ReadFailed(m) => a
                == ProducerAction::Send(StreamChunk::Failure(AudioStreamError::ProcessError(m))),
            _ => a is Finish,
        },
        RelayPhase::Sending => match e {
            ProducerEvent::Delivered => a is Read,
            _ => a is Finish,
        },
        RelayPhase::Exiting => match e {
            ProducerEvent::Exited(ok) => if ok {
                a is Finish
            } else {
                a == ProducerAction::Send(StreamChunk::Failure(AudioStreamError::InternalError))
            },
            _ => a is Finish,
        },
        _ => a is Finish,
    }
}

/// The bytes of the data chunk that an action hands to the queue, if any.
pub open spec fn sent_bytes(a: ProducerAction) -> Seq<u8> {
    match a {
        ProducerAction::Send(StreamChunk::Data(b)) => b@,
        _ => Seq::empty(),
    }
}

/// The view of the chunk that the relay hands to the queue in phase `p` on
/// event `e`, if it hands one.
pub open spec fn chunk_sent(p: RelayPhase, e: ProducerEvent) -> Option<Result<Seq<u8>, u16>> {
    match p {
        RelayPhase::Idle => match e {
            ProducerEvent::SpawnFailed(m) => Some(Err(status_of(AudioStreamError::ProcessError(m)))),
            _ => None,
        },
        RelayPhase::Reading => match e {
            ProducerEvent::ReadDone(b) => if b@.len() == 0 {
                None
            } else {
                Some(Ok(b@))
            },
            ProducerEvent::ReadFailed(m) => Some(Err(status_of(AudioStreamError::ProcessError(m)))),
            _ => None,
        },
        RelayPhase::Exiting => match e {
            ProducerEvent::Exited(ok) => if ok {
                None
            } else {
                Some(Err(status_of(AudioStreamError::InternalError)))
            },
            _ => None,
        },
        _ => None,
    }
}

/// What a relay is, as far as its laws are concerned.
pub struct RelayState {
    pub phase: RelayPhase,
    /// The bytes read so far from the producer's output, in order.
    pub emitted: Seq<u8>,
    /// The views of the chunks handed to the queue so far, in order.
    pub sent: Seq<Result<Seq<u8>, u16>>,
}

/// A relay whose producer is not started yet.
pub open spec fn initial_state() -> RelayState {
    RelayState { phase: RelayPhase::Idle, emitted: Seq::empty(), sent: Seq::empty() }
}

/// The relay after one event.
pub open spec fn step(s: RelayState, e: ProducerEvent) -> RelayState {
    match chunk_sent(s.phase, e) {
        Some(c) => RelayState {
            phase: next_phase(s.phase, e),
            emitted: match c {
                Ok(b) => s.emitted + b,
                Err(_) => s.emitted,
            },
            sent: s.sent.push(c),
        },
        None => RelayState { phase: next_phase(s.phase, e), emitted: s.emitted, sent: s.sent },
    }
}

/// The relay after a sequence of events, in order.
pub open spec fn run(s: RelayState, events: Seq<ProducerEvent>) -> RelayState
    decreases events.len(),
{
    if events.len() == 0 {
        s
    } else {
        step(run(s, events.drop_last()), events.last())
    }
}

/// A read of the output pipe returns at most one block.
pub open spec fn event_ok(e: ProducerEvent) -> bool {
    e matches ProducerEvent::ReadDone(b) ==> b@.len() <= READ_BLOCK_SIZE
}

/// The relay's invariant: the data chunks handed on are exactly the bytes
/// read, each of one to `READ_BLOCK_SIZE` bytes; a failure, if any, is the
/// last chunk, is a server error, and is there exactly when the relay is
/// closing or failed.
pub open spec fn state_wf(st: RelayState) -> bool {
    let s = st.sent;
    &&& delivered_bytes(s) == st.emitted
    &&& failure_only_last(s)
    &&& forall|i: int| 0 <= i < s.len() ==> match #[trigger] s[i] {
        Ok(b) => 0 < b.len() <= READ_BLOCK_SIZE,
        Err(status) => is_server_error(status),
    }
    &&& (st.phase is Closing || st.phase is Failed) <==> ends_in_failure(s)
    &&& st.phase is Idle ==> s.len() == 0
}

/// Appending a data chunk appends its bytes to what is delivered.
pub proof fn lemma_delivered_push_data(cs: Seq<Result<Seq<u8>, u16>>, b: Seq<u8>)
    ensures
        delivered_bytes(cs.push(Ok(b))) == delivered_bytes(cs) + b,
{
    assert(cs.push(Ok(b)).drop_last() =~= cs);
}

/// Appending a failure leaves what is delivered unchanged.
pub proof fn lemma_delivered_push_failure(cs: Seq<Result<Seq<u8>, u16>>, st: u16)
    ensures
        delivered_bytes(cs.push(Err(st))) == delivered_bytes(cs),
{
    assert(cs.push(Err(st)).drop_last() =~= cs);
}

/// Every step that a driver can take keeps the invariant.
pub proof fn lemma_step_keeps_wf(s: RelayState, e: ProducerEvent)
    requires
        state_wf(s),
        event_ok(e),
    ensures
        state_wf(step(s, e)),
{
    let t = step(s, e);
    match chunk_sent(s.phase, e) {
        Some(c) => {
            match c {
                Ok(b) => lemma_delivered_push_data(s.sent, b),
                Err(st) => lemma_delivered_push_failure(s.sent, st),
            }
            assert forall|i: int| 0 <= i < s.sent.len() implies #[trigger] t.sent[i] == s.sent[i] by {}
            assert(t.sent.last() == c);
        },
        None => {},
    }
}

/// The producer side of a relay: decides, event by event, what its driver
/// does with the producer process and the queue.
pub struct Relay {
    pub phase: RelayPhase,
    /// The bytes read so far from the producer's output, in order.
    pub emitted: Ghost<Seq<u8>>,
    /// The views of the chunks handed to the queue so far, in order.
    pub sent: Ghost<Seq<Result<Seq<u8>, u16>>>,
}

impl View for Relay {
    type V = RelayState;

    open spec fn view(&self) -> RelayState {
        RelayState { phase: self.phase, emitted: self.emitted@, sent: self.sent@ }
    }
}

impl Relay {
    /// The relay's invariant.
    pub open spec fn wf(&self) -> bool {
        state_wf(self@)
    }

    /// A relay whose producer is not started yet.
    pub fn new() -> (r: Relay)
        ensures
            r.wf(),
            r@ == initial_state(),
    {
        Relay { phase: RelayPhase::Idle, emitted: Ghost(Seq::empty()), sent: Ghost(Seq::empty()) }
    }

    /// Takes one event from the driver and returns the next action. A read
    /// returns at most one block.
    pub fn on_event(&mut self, event: ProducerEvent) -> (a: ProducerAction)
        requires
            old(self).wf(),
            event_ok(event),
        ensures
            final(self).wf(),
            final(self)@ == step(old(self)@, event),
            action_for(old(self).phase, event, a),
            final(self).emitted@ == old(self).emitted@ + sent_bytes(a),
            a matches ProducerAction::Send(c) ==> final(self).sent@ == old(self).sent@.push(c@),
            !(a is Send) ==> final(self).sent@ == old(self).sent@,
    {
        proof {
            lemma_step_keeps_wf(self@, event);
        }
        let ghost s0 = self.sent@;
        let ghost e0 = self.emitted@;
        match self.phase {
            RelayPhase::Idle => match event {
                ProducerEvent::Spawned => {
                    self.phase = RelayPhase::Reading;
                    ProducerAction::Read
                },
                ProducerEvent::SpawnFailed(m) => {
                    self.fail_with(AudioStreamError::ProcessError(m))
                },
                _ => self.stop(RelayPhase::Abandoned),
            },
            RelayPhase::Reading => match event {
                ProducerEvent::ReadDone(b) => {
                    if b.len() == 0 {
                        self.phase = RelayPhase::Exiting;
                        ProducerAction::AwaitExit
                    } else {
                        let ghost gb = b@;
                        self.sent = Ghost(s0.push(Ok(gb)));
                        self.emitted = Ghost(e0 + gb);
                        self.phase = RelayPhase::Sending;
                        ProducerAction::Send(StreamChunk::Data(b))
                    }
                },
                ProducerEvent::ReadFailed(m) => {
                    self.fail_with(AudioStreamError::ProcessError(m))
                },
                _ => self.stop(RelayPhase::Abandoned),
            },
            RelayPhase::Sending => match event {
                ProducerEvent::Delivered => {
                    self.phase = RelayPhase::Reading;
                    ProducerAction::Read
                },
                _ => self.stop(RelayPhase::Abandoned),
            },
            RelayPhase::Exiting => match event {
                ProducerEvent::Exited(ok) => {
                    if ok {
                        self.phase = RelayPhase::Completed;
                        ProducerAction::Finish
                    } else {
                        self.fail_with(AudioStreamError::InternalError)
                    }
                },
                _ => self.stop(RelayPhase::Abandoned),
            },
            RelayPhase::Closing => self.stop(RelayPhase::Failed),
            _ => ProducerAction::Finish,
        }
    }

    /// Moves to the stopped phase `p` and tells the driver to finish.
    fn stop(&mut self, p: RelayPhase) -> (a: ProducerAction)
        ensures
            final(self).phase == p,
            final(self).emitted == old(self).emitted,
            final(self).sent == old(self).sent,
            a is Finish,
    {
        self.phase = p;
        ProducerAction::Finish
    }

    /// Hands the terminal failure `e` to the queue and moves to closing.
    fn fail_with(&mut self, e: AudioStreamError) -> (a: ProducerAction)
        ensures
            final(self).phase is Closing,
            a == ProducerAction::Send(StreamChunk::Failure(e)),
            final(self).emitted@ == old(self).emitted@,
            final(self).sent@ == old(self).sent@.push(Err(status_of(e))),
    {
        let ghost s0 = self.sent@;
        self.sent = Ghost(s0.push(Err(status_of(e))));
        self.phase = RelayPhase::Closing;
        ProducerAction::Send(StreamChunk::Failure(e))
    }
}

} // verus!
