use vstd::prelude::*;
use crate::error::{AudioStreamError, status_of, is_server_error};
use crate::catalog::is_env_var_error;
use crate::relay::{
    RelayPhase, RelayState, ProducerEvent, ProducerAction, StreamChunk, READ_BLOCK_SIZE,
    delivered_bytes, next_phase, action_for, sent_bytes, ends_in_failure, failure_only_last, step,
    run, initial_state, state_wf, event_ok, lemma_step_keeps_wf,
};
use crate::body::{BodySink, BodyPhase};

verus! {

/// When every data chunk is non-empty, nothing is delivered only if no data
/// chunk is there at all.
proof fn lemma_nothing_delivered_means_no_data(cs: Seq<Result<Seq<u8>, u16>>)
    requires
        forall|i: int| 0 <= i < cs.len() ==> (#[trigger] cs[i] matches Ok(b) ==> b.len() > 0),
        delivered_bytes(cs).len() == 0,
    ensures
        forall|i: int| 0 <= i < cs.len() ==> (#[trigger] cs[i]) is Err,
    decreases cs.len(),
{
    if cs.len() > 0 {
        let prev = cs.drop_last();
        assert(delivered_bytes(prev).len() == 0) by {
            match cs.last() {
                Ok(b) => {},
                Err(_) => {},
            }
        }
        assert forall|i: int| 0 <= i < prev.len() implies (#[trigger] prev[i] matches Ok(b) ==> b.len() > 0) by {
            assert(prev[i] == cs[i]);
        }
        lemma_nothing_delivered_means_no_data(prev);
        assert forall|i: int| 0 <= i < cs.len() implies (#[trigger] cs[i]) is Err by {
            if i < prev.len() {
                assert(prev[i] == cs[i]);
            }
        }
    }
}

/// Order and exactness end to end: when the response has taken every chunk
/// that the relay handed to the queue, in order, its body is exactly the
/// bytes read from the producer, whatever the chunk boundaries were, and
/// whether the producer finished or failed part way.
pub proof fn law_body_is_exactly_what_was_read(r: RelayState, b: BodySink)
    requires
        state_wf(r),
        b.wf(),
        b.received@ == r.sent,
    ensures
        b.delivered@ == r.emitted,
{
}

/// A relay that completed handed on no failure, and its chunks hold exactly
/// the bytes read from the producer.
pub proof fn law_completed_relay_sends_only_data(r: RelayState)
    requires
        state_wf(r),
        r.phase is Completed,
    ensures
        forall|i: int| 0 <= i < r.sent.len() ==> (#[trigger] r.sent[i]) is Ok,
        delivered_bytes(r.sent) == r.emitted,
{
    assert forall|i: int| 0 <= i < r.sent.len() implies (#[trigger] r.sent[i]) is Ok by {
        if i == r.sent.len() - 1 {
            assert(r.sent.last() == r.sent[i]);
        }
    }
}

/// A producer that fails, or never starts, before emitting any byte yields a
/// server-error status instead of a body.
pub proof fn law_failure_before_any_byte_is_an_error_status(r: RelayState, b: BodySink)
    requires
        state_wf(r),
        b.wf(),
        b.received@ == r.sent,
        r.phase is Failed,
        r.emitted.len() == 0,
    ensures
        b.phase matches BodyPhase::Rejected(status) && is_server_error(status),
{
    let s = r.sent;
    assert forall|i: int| 0 <= i < s.len() implies (#[trigger] s[i] matches Ok(x) ==> x.len() > 0) by {
        match s[i] {
            Ok(x) => {},
            Err(_) => {},
        }
    }
    lemma_nothing_delivered_means_no_data(s);
    assert(s.len() > 0);
    if s.len() > 1 {
        assert(s[0] is Ok);
    }
    assert(s.len() == 1);
    assert(s[0] == s.last());
    match b.phase {
        BodyPhase::Rejected(status) => {
            assert(b.received@[0] == Err::<Seq<u8>, u16>(status));
        },
        BodyPhase::Aborted => {
            assert(s[0] is Ok);
        },
        _ => {},
    }
}

/// A producer that fails after emitting some bytes yields a truncated body:
/// the status was already sent, the body is cut short, and it holds exactly
/// the bytes emitted before the failure.
pub proof fn law_failure_after_some_bytes_truncates(r: RelayState, b: BodySink)
    requires
        state_wf(r),
        b.wf(),
        b.received@ == r.sent,
        r.phase is Failed,
        r.emitted.len() > 0,
    ensures
        b.phase is Aborted,
        b.delivered@ == r.emitted,
        ends_in_failure(r.sent),
        failure_only_last(r.sent),
{
    let s = r.sent;
    match b.phase {
        BodyPhase::Rejected(status) => {
            assert(s =~= seq![Err::<Seq<u8>, u16>(status)]);
            assert(s.drop_last() =~= Seq::<Result<Seq<u8>, u16>>::empty());
            assert(delivered_bytes(s.drop_last()).len() == 0);
            assert(delivered_bytes(s) == delivered_bytes(s.drop_last()));
        },
        _ => {},
    }
}

/// Backpressure: while a data chunk waits for room in the queue, the relay
/// reads nothing more and hands on no new data; it reads again only once the
/// queue took the chunk, and any other event stops it.
pub proof fn law_no_read_while_chunk_waits(e: ProducerEvent, a: ProducerAction)
    requires
        action_for(RelayPhase::Sending, e, a),
    ensures
        a is Read <==> e is Delivered,
        next_phase(RelayPhase::Sending, e) is Reading <==> e is Delivered,
        next_phase(RelayPhase::Sending, e) is Abandoned <==> !(e is Delivered),
        sent_bytes(a).len() == 0,
{
}

/// No data is dropped: every non-empty read is handed to the queue whole, as
/// one chunk.
pub proof fn law_every_read_is_forwarded(bytes: Vec<u8>, a: ProducerAction)
    requires
        bytes@.len() > 0,
        action_for(RelayPhase::Reading, ProducerEvent::ReadDone(bytes), a),
    ensures
        a == ProducerAction::Send(StreamChunk::Data(bytes)),
        sent_bytes(a) == bytes@,
        next_phase(RelayPhase::Reading, ProducerEvent::ReadDone(bytes)) is Sending,
{
}

/// A missing credential is answered with a server error.
pub proof fn law_missing_credential_is_a_server_error(e: AudioStreamError, name: Seq<char>)
    requires
        is_env_var_error(e, name),
    ensures
        is_server_error(status_of(e)),
{
}

/// The events of a producer that writes `reads`, one read after another,
/// each chunk taken by the queue before the next read.
pub open spec fn pump_events(reads: Seq<Vec<u8>>) -> Seq<ProducerEvent>
    decreases reads.len(),
{
    if reads.len() == 0 {
        Seq::empty()
    } else {
        pump_events(reads.drop_last()) + seq![
            ProducerEvent::ReadDone(reads.last()),
            ProducerEvent::Delivered,
        ]
    }
}

/// The bytes of `reads`, in order.
pub open spec fn concat_reads(reads: Seq<Vec<u8>>) -> Seq<u8>
    decreases reads.len(),
{
    if reads.len() == 0 {
        Seq::empty()
    } else {
        concat_reads(reads.drop_last()) + reads.last()@
    }
}

/// One data chunk for each read, in order.
pub open spec fn data_chunks(reads: Seq<Vec<u8>>) -> Seq<Result<Seq<u8>, u16>> {
    reads.map_values(|r: Vec<u8>| Ok(r@))
}

/// Every read returned between one byte and one block.
pub open spec fn reads_ok(reads: Seq<Vec<u8>>) -> bool {
    forall|i: int| 0 <= i < reads.len() ==> 0 < (#[trigger] reads[i])@.len() <= READ_BLOCK_SIZE
}

/// Every event is one a driver can report.
pub open spec fn events_ok(events: Seq<ProducerEvent>) -> bool {
    forall|i: int| 0 <= i < events.len() ==> event_ok(#[trigger] events[i])
}

/// Running two sequences of events is running the first, then the second.
proof fn lemma_run_append(s: RelayState, a: Seq<ProducerEvent>, b: Seq<ProducerEvent>)
    ensures
        run(s, a + b) == run(run(s, a), b),
    decreases b.len(),
{
    if b.len() == 0 {
        assert(a + b =~= a);
    } else {
        assert((a + b).drop_last() =~= a + b.drop_last());
        assert((a + b).last() == b.last());
        lemma_run_append(s, a, b.drop_last());
    }
}

/// Running two events is taking two steps.
proof fn lemma_run_two(s: RelayState, x: ProducerEvent, y: ProducerEvent)
    ensures
        run(s, seq![x, y]) == step(step(s, x), y),
        run(s, seq![x]) == step(s, x),
{
    let one = seq![x];
    let two = seq![x, y];
    assert(two.drop_last() =~= one);
    assert(one.drop_last() =~= Seq::<ProducerEvent>::empty());
    assert(two.last() == y);
    assert(one.last() == x);
    assert(run(s, Seq::<ProducerEvent>::empty()) == s);
    assert(run(s, one) == step(run(s, one.drop_last()), one.last()));
    assert(run(s, two) == step(run(s, two.drop_last()), two.last()));
}

/// Any sequence of events that a driver can report keeps the invariant.
pub proof fn lemma_run_keeps_wf(s: RelayState, events: Seq<ProducerEvent>)
    requires
        state_wf(s),
        events_ok(events),
    ensures
        state_wf(run(s, events)),
    decreases events.len(),
{
    if events.len() > 0 {
        let d = events.drop_last();
        assert forall|i: int| 0 <= i < d.len() implies event_ok(#[trigger] d[i]) by {
            assert(d[i] == events[i]);
        }
        lemma_run_keeps_wf(s, d);
        lemma_step_keeps_wf(run(s, d), events.last());
    }
}

/// Pumping reads from the reading phase hands on each read as one chunk.
proof fn lemma_pump(s: RelayState, reads: Seq<Vec<u8>>)
    requires
        s.phase is Reading,
        reads_ok(reads),
    ensures
        run(s, pump_events(reads)) == (RelayState {
            phase: RelayPhase::Reading,
            emitted: s.emitted + concat_reads(reads),
            sent: s.sent + data_chunks(reads),
        }),
    decreases reads.len(),
{
    if reads.len() == 0 {
        assert(s.emitted + concat_reads(reads) =~= s.emitted);
        assert(s.sent + data_chunks(reads) =~= s.sent);
    } else {
        let d = reads.drop_last();
        let last = reads.last();
        assert forall|i: int| 0 <= i < d.len() implies 0 < (#[trigger] d[i])@.len() <= READ_BLOCK_SIZE by {
            assert(d[i] == reads[i]);
        }
        assert(0 < last@.len() <= READ_BLOCK_SIZE) by {
            assert(last == reads[reads.len() - 1]);
        }
        lemma_pump(s, d);
        let tail = seq![ProducerEvent::ReadDone(last), ProducerEvent::Delivered];
        lemma_run_append(s, pump_events(d), tail);
        lemma_run_two(run(s, pump_events(d)), ProducerEvent::ReadDone(last), ProducerEvent::Delivered);
        assert(s.emitted + concat_reads(d) + last@ =~= s.emitted + concat_reads(reads));
        assert((s.sent + data_chunks(d)).push(Ok(last@)) =~= s.sent + data_chunks(reads));
    }
}

/// The events of a producer that starts, writes `reads`, and ends its output
/// with the empty read `eof`.
pub open spec fn events_to_eof(reads: Seq<Vec<u8>>, eof: Vec<u8>) -> Seq<ProducerEvent> {
    seq![ProducerEvent::Spawned] + pump_events(reads) + seq![ProducerEvent::ReadDone(eof)]
}

/// The relay's state after the producer wrote `reads` and reached end of file.
proof fn lemma_run_to_eof(reads: Seq<Vec<u8>>, eof: Vec<u8>)
    requires
        reads_ok(reads),
        eof@.len() == 0,
    ensures
        run(initial_state(), events_to_eof(reads, eof)) == (RelayState {
            phase: RelayPhase::Exiting,
            emitted: concat_reads(reads),
            sent: data_chunks(reads),
        }),
{
    let s0 = initial_state();
    let s1 = step(s0, ProducerEvent::Spawned);
    lemma_run_two(s0, ProducerEvent::Spawned, ProducerEvent::Spawned);
    lemma_run_append(s0, seq![ProducerEvent::Spawned], pump_events(reads));
    lemma_pump(s1, reads);
    let pre = seq![ProducerEvent::Spawned] + pump_events(reads);
    lemma_run_append(s0, pre, seq![ProducerEvent::ReadDone(eof)]);
    lemma_run_two(run(s0, pre), ProducerEvent::ReadDone(eof), ProducerEvent::ReadDone(eof));
    assert(s1.emitted + concat_reads(reads) =~= concat_reads(reads));
    assert(s1.sent + data_chunks(reads) =~= data_chunks(reads));
}

/// A producer that writes its output in any split into reads and then exits
/// successfully is relayed in full: the relay completes having handed on one
/// data chunk per read, in order and with no failure, so the body it feeds
/// holds exactly the bytes written.
pub proof fn law_clean_run_relays_every_byte(reads: Seq<Vec<u8>>, eof: Vec<u8>)
    requires
        reads_ok(reads),
        eof@.len() == 0,
    ensures
        ({
            let f = run(initial_state(), events_to_eof(reads, eof).push(ProducerEvent::Exited(true)));
            &&& state_wf(f)
            &&& f.phase is Completed
            &&& f.sent == data_chunks(reads)
            &&& f.emitted == concat_reads(reads)
            &&& delivered_bytes(f.sent) == concat_reads(reads)
            &&& forall|i: int| 0 <= i < f.sent.len() ==> ((#[trigger] f.sent[i]) matches Ok(b) && 0
                < b.len() <= READ_BLOCK_SIZE)
        }),
{
    let ev = events_to_eof(reads, eof);
    let all = ev.push(ProducerEvent::Exited(true));
    lemma_run_to_eof(reads, eof);
    assert(all.drop_last() =~= ev);
    lemma_step_keeps_wf(initial_state(), ProducerEvent::Spawned);
    let f = run(initial_state(), all);
    assert(state_wf(run(initial_state(), ev))) by {
        let m = run(initial_state(), ev);
        assert forall|i: int| 0 <= i < m.sent.len() implies (match #[trigger] m.sent[i] {
            Ok(b) => 0 < b.len() <= READ_BLOCK_SIZE,
            Err(status) => crate::error::is_server_error(status),
        }) by {
            assert(reads[i]@.len() > 0);
        }
        lemma_delivered_chunks(reads);
    }
    lemma_step_keeps_wf(run(initial_state(), ev), ProducerEvent::Exited(true));
}

/// The chunks of a sequence of reads deliver the reads' bytes.
proof fn lemma_delivered_chunks(reads: Seq<Vec<u8>>)
    ensures
        delivered_bytes(data_chunks(reads)) == concat_reads(reads),
    decreases reads.len(),
{
    if reads.len() > 0 {
        let d = reads.drop_last();
        lemma_delivered_chunks(d);
        assert(data_chunks(reads).drop_last() =~= data_chunks(d));
    }
}

/// A producer that writes `reads` and then fails, by a read error or by a
/// failing exit, is relayed up to the failure: the relay hands on one data
/// chunk per read and then exactly one server-error failure, so the body it
/// feeds holds exactly the bytes written before the failure.
pub proof fn law_failed_run_stops_at_the_failure(reads: Seq<Vec<u8>>, eof: Vec<u8>, reason: String)
    requires
        reads_ok(reads),
        eof@.len() == 0,
    ensures
        ({
            let by_exit = run(initial_state(), events_to_eof(reads, eof).push(ProducerEvent::Exited(false)));
            let by_read = run(
                initial_state(),
                (seq![ProducerEvent::Spawned] + pump_events(reads)).push(ProducerEvent::ReadFailed(reason)),
            );
            &&& state_wf(by_exit) && state_wf(by_read)
            &&& by_exit.phase is Closing && by_read.phase is Closing
            &&& by_exit.sent == data_chunks(reads).push(Err(500))
            &&& by_read.sent == data_chunks(reads).push(Err(500))
            &&& delivered_bytes(by_exit.sent) == concat_reads(reads)
            &&& delivered_bytes(by_read.sent) == concat_reads(reads)
        }),
{
    let s0 = initial_state();
    let s1 = step(s0, ProducerEvent::Spawned);
    let ev = events_to_eof(reads, eof);
    lemma_run_to_eof(reads, eof);
    assert(ev.push(ProducerEvent::Exited(false)).drop_last() =~= ev);
    let pre = seq![ProducerEvent::Spawned] + pump_events(reads);
    lemma_run_two(s0, ProducerEvent::Spawned, ProducerEvent::Spawned);
    lemma_run_append(s0, seq![ProducerEvent::Spawned], pump_events(reads));
    lemma_pump(s1, reads);
    assert(pre.push(ProducerEvent::ReadFailed(reason)).drop_last() =~= pre);
    assert(s1.emitted + concat_reads(reads) =~= concat_reads(reads));
    assert(s1.sent + data_chunks(reads) =~= data_chunks(reads));
    lemma_delivered_chunks(reads);
    assert(state_wf(run(s0, ev)) && state_wf(run(s0, pre))) by {
        let m = run(s0, ev);
        assert forall|i: int| 0 <= i < m.sent.len() implies (match #[trigger] m.sent[i] {
            Ok(b) => 0 < b.len() <= READ_BLOCK_SIZE,
            Err(status) => crate::error::is_server_error(status),
        }) by {
            assert(reads[i]@.len() > 0);
        }
    }
    lemma_step_keeps_wf(run(s0, ev), ProducerEvent::Exited(false));
    lemma_step_keeps_wf(run(s0, pre), ProducerEvent::ReadFailed(reason));
    crate::relay::lemma_delivered_push_failure(data_chunks(reads), 500);
}

/// A producer that cannot be started leads to exactly one chunk, a
/// server-error failure, and no byte.
pub proof fn law_spawn_failure_sends_one_failure(reason: String)
    ensures
        run(initial_state(), seq![ProducerEvent::SpawnFailed(reason)]) == (RelayState {
            phase: RelayPhase::Closing,
            emitted: Seq::empty(),
            sent: seq![Err::<Seq<u8>, u16>(500)],
        }),
{
    let e = ProducerEvent::SpawnFailed(reason);
    lemma_run_two(initial_state(), e, e);
    assert(Seq::<Result<Seq<u8>, u16>>::empty().push(Err(500)) =~= seq![Err::<Seq<u8>, u16>(500)]);
}

} // verus!
