use vstd::prelude::*;
use crate::error::{AudioStreamError, status_of};
use crate::relay::{StreamChunk, delivered_bytes, failure_only_last};

verus! {

/// What the response side does with one message taken from the queue.
#[derive(Debug)]
pub enum BodyAction {
    /// Answer with this error's status; no body byte was sent yet.
    Reject(AudioStreamError),
    /// Write these bytes to the body, committing a success status first if
    /// nothing was sent yet.
    Write(Vec<u8>),
    /// End the body normally.
    End,
    /// Cut the body short: the status is already sent, so the client sees a
    /// truncated transfer.
    Abort,
    /// The response is already over; drop the message.
    Ignore,
}

/// The life cycle of one streamed response.
#[derive(Debug, Clone, Copy, PartialEq, Eq)]
pub enum BodyPhase {
    /// No message arrived yet; the status is not committed.
    Waiting,
    /// The success status is committed and bytes flow.
    Streaming,
    /// The body ended normally.
    Ended,
    /// An error status was sent instead of a body.
    Rejected(u16),
    /// The body was cut short after a failure.
    Aborted,
}

/// The consumer side of a relay: turns queue messages into the HTTP response.
pub struct BodySink {
    pub phase: BodyPhase,
    /// The views of the queue messages taken while the response was open.
    pub received: Ghost<Seq<Result<Seq<u8>, u16>>>,
    /// The bytes written to the body, in order.
    pub delivered: Ghost<Seq<u8>>,
}

impl BodySink {
    /// The sink's invariant: the body holds exactly the data received up to the
    /// first failure, and the phase tells what the received messages were.
    pub open spec fn wf(&self) -> bool {
        let r = self.received@;
        &&& self.delivered@ == delivered_bytes(r)
        &&& failure_only_last(r)
        &&& match self.phase {
            BodyPhase::Waiting => r.len() == 0,
            BodyPhase::Streaming => r.len() > 0 && r.last() is Ok,
            BodyPhase::Ended => r.len() == 0 || r.last() is Ok,
            BodyPhase::Rejected(status) => r == seq![Err::<Seq<u8>, u16>(status)],
            BodyPhase::Aborted => r.len() > 1 && r.last() is Err,
        }
    }

    /// A response that has not seen any message yet.
    pub fn new() -> (g: BodySink)
        ensures
            g.wf(),
            g.phase is Waiting,
            g.received@.len() == 0,
    {
        BodySink { phase: BodyPhase::Waiting, received: Ghost(Seq::empty()), delivered: Ghost(Seq::empty()) }
    }

    /// Whether the response is over.
    pub open spec fn is_over(&self) -> bool {
        !(self.phase is Waiting || self.phase is Streaming)
    }

    /// Takes the next queue message (`None` once the queue is closed and empty)
    /// and says what to do with the response.
    pub fn on_message(&mut self, msg: Option<StreamChunk>) -> (a: BodyAction)
        requires
            old(self).wf(),
        ensures
            final(self).wf(),
            old(self).is_over() ==> a is Ignore && *final(self) == *old(self),
            !old(self).is_over() ==> match msg {
                Some(c) => final(self).received@ == old(self).received@.push(c@),
                None => final(self).received@ == old(self).received@,
            },
            !old(self).is_over() ==> match msg {
                Some(StreamChunk::Data(b)) => a == BodyAction::Write(b)
                    && final(self).phase is Streaming,
                Some(StreamChunk::Failure(e)) => if old(self).phase is Waiting {
                    a == BodyAction::Reject(e) && final(self).phase == BodyPhase::Rejected(status_of(e))
                } else {
                    a is Abort && final(self).phase is Aborted
                },
                None => a is End && final(self).phase is Ended,
            },
    {
        if !(matches!(self.phase, BodyPhase::Waiting) || matches!(self.phase, BodyPhase::Streaming)) {
            return BodyAction::Ignore;
        }
        let ghost r0 = self.received@;
        match msg {
            Some(StreamChunk::Data(b)) => {
                let ghost gb = b@;
                self.received = Ghost(r0.push(Ok(gb)));
                self.delivered = Ghost(self.delivered@ + gb);
                proof {
                    assert(r0.push(Ok(gb)).drop_last() =~= r0);
                    assert forall|i: int| 0 <= i < r0.len() implies #[trigger] r0.push(Ok(gb))[i] == r0[i] by {}
                }
                self.phase = BodyPhase::Streaming;
                BodyAction::Write(b)
            },
            Some(StreamChunk::Failure(e)) => {
                let ghost st = status_of(e);
                self.received = Ghost(r0.push(Err(st)));
                proof {
                    assert(r0.push(Err(st)).drop_last() =~= r0);
                    assert forall|i: int| 0 <= i < r0.len() implies #[trigger] r0.push(Err(st))[i] == r0[i] by {}
                }
                if matches!(self.phase, BodyPhase::Waiting) {
                    let status = e.status_code();
                    proof {
                        assert(r0.push(Err(st)) =~= seq![Err::<Seq<u8>, u16>(st)]);
                    }
                    self.phase = BodyPhase::Rejected(status);
                    BodyAction::Reject(e)
                } else {
                    self.phase = BodyPhase::Aborted;
                    BodyAction::Abort
                }
            },
            None => {
                self.phase = BodyPhase::Ended;
                BodyAction::End
            },
        }
    }
}

} // verus!
