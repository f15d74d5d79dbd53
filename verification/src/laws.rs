//! What holds of every run of the connection actor, proved over the state
//! machine that the actor's transitions implement.

use crate::dispatcher::{
    decoded_frames, forwarded, is_terminal, stopped_after, InboundReadView,
};
use crate::machine::{
    emitted, initial_state, next_state, state_after, trace, well_formed, ActionView, ClientState,
    EventView, Phase,
};
use crate::payload::PayloadView;
use crate::request::{completed, UnaryOutcome};
use vstd::prelude::*;

verus! {

/// Position of a phase in the actor's life.
pub open spec fn phase_rank(phase: Phase) -> int {
    match phase {
        Phase::Created => 0,
        Phase::Connecting => 1,
        Phase::Streaming => 2,
        Phase::Stopped => 3,
    }
}

/// The action is the setup handshake.
pub open spec fn is_setup(action: ActionView) -> bool {
    action is SendSetup
}

/// The action is a unary call, a liveness probe included.
pub open spec fn is_call(action: ActionView) -> bool {
    action is UnaryCall
}

/// The setup handshake stands among the first `i` actions.
pub open spec fn setup_before(actions: Seq<ActionView>, i: int) -> bool {
    exists|j: int| 0 <= j < i && j < actions.len() && is_setup(#[trigger] actions[j])
}

/// One step keeps the state well formed and never moves the actor back.
pub proof fn lemma_step(s: ClientState, e: EventView)
    requires
        well_formed(s),
    ensures
        well_formed(next_state(s, e)),
        phase_rank(s.phase) <= phase_rank(next_state(s, e).phase),
        next_state(s, e).client_ip == s.client_ip,
{
}

/// Every run from a well-formed state ends in a well-formed state, and the
/// actor never moves back.
pub proof fn lemma_run(s: ClientState, events: Seq<EventView>)
    requires
        well_formed(s),
    ensures
        well_formed(state_after(s, events)),
        phase_rank(s.phase) <= phase_rank(state_after(s, events).phase),
    decreases events.len(),
{
    if events.len() > 0 {
        lemma_run(s, events.drop_last());
        lemma_step(state_after(s, events.drop_last()), events.last());
    }
}

/// No unary call, and so no liveness probe, is asked for before the actor
/// streams: as long as a run from a fresh actor has not reached the
/// streaming phase, its actions hold no unary call.
pub proof fn lemma_no_call_before_streaming(client_ip: Seq<char>, events: Seq<EventView>)
    ensures
        phase_rank(state_after(initial_state(client_ip), events).phase) < phase_rank(
            Phase::Streaming,
        ) ==> forall|i: int|
            0 <= i < trace(initial_state(client_ip), events).len() ==> !is_call(
                #[trigger] trace(initial_state(client_ip), events)[i],
            ),
    decreases events.len(),
{
    let s0 = initial_state(client_ip);
    let t = trace(s0, events);
    if events.len() > 0 {
        let before = events.drop_last();
        let sb = state_after(s0, before);
        let tb = trace(s0, before);
        let step = emitted(sb, events.last());
        lemma_no_call_before_streaming(client_ip, before);
        lemma_run(s0, before);
        lemma_step(sb, events.last());
        if phase_rank(state_after(s0, events).phase) < phase_rank(Phase::Streaming) {
            assert forall|i: int| 0 <= i < t.len() implies !is_call(#[trigger] t[i]) by {
                if i < tb.len() {
                    assert(t[i] == tb[i]);
                } else {
                    assert(t[i] == step[i - tb.len()]);
                }
            }
        }
    }
}

/// The setup handshake is asked for exactly once in a run that opened the
/// stream and never in one that did not, and every unary call, so every
/// liveness probe, comes after it.
pub proof fn lemma_setup_once_and_first(client_ip: Seq<char>, events: Seq<EventView>)
    ensures
        ({
            let t = trace(initial_state(client_ip), events);
            let s = state_after(initial_state(client_ip), events);
            &&& s.setup_sent == setup_before(t, t.len() as int)
            &&& forall|i: int, j: int|
                0 <= i < t.len() && 0 <= j < t.len() && is_setup(#[trigger] t[i]) && is_setup(
                    #[trigger] t[j],
                ) ==> i == j
            &&& forall|i: int| 0 <= i < t.len() && is_call(#[trigger] t[i]) ==> setup_before(t, i)
        }),
    decreases events.len(),
{
    let s0 = initial_state(client_ip);
    let t = trace(s0, events);
    let s = state_after(s0, events);
    if events.len() > 0 {
        let before = events.drop_last();
        let e = events.last();
        let tb = trace(s0, before);
        let sb = state_after(s0, before);
        let step = emitted(sb, e);
        lemma_setup_once_and_first(client_ip, before);
        lemma_run(s0, before);
        lemma_step(sb, e);
        assert(t == tb + step);
        assert forall|i: int| 0 <= i < tb.len() implies t[i] == tb[i] by {}
        assert forall|i: int| tb.len() <= i < t.len() implies t[i] == step[i - tb.len()] by {}
        if sb.setup_sent {
            let j = choose|j: int| 0 <= j < tb.len() && is_setup(#[trigger] tb[j]);
            assert(is_setup(t[j]));
            assert(setup_before(t, t.len() as int));
            assert forall|i: int| 0 <= i < t.len() && is_call(#[trigger] t[i]) implies setup_before(
                t,
                i,
            ) by {
                if i < tb.len() {
                    let w = choose|w: int| 0 <= w < i && w < tb.len() && is_setup(#[trigger] tb[w]);
                    assert(is_setup(t[w]));
                } else {
                    assert(is_setup(t[j]));
                }
            }
        } else {
            assert forall|i: int| 0 <= i < tb.len() implies !is_setup(#[trigger] tb[i]) by {
                if is_setup(tb[i]) {
                    assert(setup_before(tb, tb.len() as int));
                }
            }
            assert forall|i: int| 0 <= i < t.len() && is_call(#[trigger] t[i]) implies setup_before(
                t,
                i,
            ) by {
                if i < tb.len() {
                    let w = choose|w: int| 0 <= w < i && w < tb.len() && is_setup(#[trigger] tb[w]);
                    assert(is_setup(t[w]));
                }
            }
            if s.setup_sent {
                assert(is_setup(t[tb.len() as int + 1]));
                assert(setup_before(t, t.len() as int));
            } else {
                if setup_before(t, t.len() as int) {
                    let j = choose|j: int| 0 <= j < t.len() && is_setup(#[trigger] t[j]);
                    assert(j >= tb.len());
                    assert(is_setup(step[j - tb.len()]));
                }
            }
        }
    } else {
        assert(t.len() == 0);
    }
}

/// The stream was established in the run: the report that it opened reached
/// the actor while it was connecting.
pub open spec fn stream_established(s: ClientState, events: Seq<EventView>) -> bool {
    exists|k: int|
        0 <= k < events.len() && events[k] is StreamOpened && (#[trigger] state_after(
            s,
            events.take(k),
        )).phase == Phase::Connecting
}

/// The setup handshake has been asked for exactly in the runs that
/// established the stream.
pub proof fn lemma_setup_iff_established(client_ip: Seq<char>, events: Seq<EventView>)
    ensures
        state_after(initial_state(client_ip), events).setup_sent == stream_established(
            initial_state(client_ip),
            events,
        ),
    decreases events.len(),
{
    let s0 = initial_state(client_ip);
    if events.len() > 0 {
        let before = events.drop_last();
        let last = events.len() - 1;
        let sb = state_after(s0, before);
        lemma_setup_iff_established(client_ip, before);
        lemma_run(s0, before);
        assert(events.take(last) =~= before);
        assert forall|k: int| 0 <= k < last implies #[trigger] events.take(k) == before.take(
            k,
        ) by {
            assert(events.take(k) =~= before.take(k));
        }
        if stream_established(s0, before) {
            let k = choose|k: int|
                0 <= k < before.len() && before[k] is StreamOpened && (#[trigger] state_after(
                    s0,
                    before.take(k),
                )).phase == Phase::Connecting;
            assert(events[k] is StreamOpened);
            assert(state_after(s0, events.take(k)).phase == Phase::Connecting);
        } else if stream_established(s0, events) {
            let k = choose|k: int|
                0 <= k < events.len() && events[k] is StreamOpened && (#[trigger] state_after(
                    s0,
                    events.take(k),
                )).phase == Phase::Connecting;
            if k < last {
                assert(before[k] is StreamOpened);
                assert(state_after(s0, before.take(k)).phase == Phase::Connecting);
            }
        }
        if events.last() is StreamOpened && sb.phase == Phase::Connecting {
            assert(state_after(s0, events.take(last)).phase == Phase::Connecting);
        }
    }
}

/// A read that ends the inbound stream, cleanly or not, stops a streaming
/// actor in that very step.
pub proof fn lemma_end_of_stream_stops(s: ClientState, read: InboundReadView)
    requires
        s.phase == Phase::Streaming,
        is_terminal(read),
    ensures
        next_state(s, EventView::Inbound(read)).phase == Phase::Stopped,
        !next_state(s, EventView::Inbound(read)).stream_reader,
        !next_state(s, EventView::Inbound(read)).stream_sender,
        emitted(s, EventView::Inbound(read)) == seq![ActionView::Stop],
{
}

/// A stopped actor stays as it is and asks for nothing, whatever happens:
/// no probe, no call, no delivery.
pub proof fn lemma_stopped_is_final(s: ClientState, events: Seq<EventView>)
    requires
        s.phase == Phase::Stopped,
    ensures
        state_after(s, events) == s,
        trace(s, events) == Seq::<ActionView>::empty(),
    decreases events.len(),
{
    if events.len() > 0 {
        lemma_stopped_is_final(s, events.drop_last());
    }
}

/// As long as no read is terminal, the dispatcher forwards every decoded
/// frame, once and in the order read, and does not stop; malformed frames
/// are left out and change nothing else.
pub proof fn lemma_forwards_every_frame(reads: Seq<InboundReadView>)
    requires
        forall|i: int| 0 <= i < reads.len() ==> !is_terminal(#[trigger] reads[i]),
    ensures
        forwarded(reads) == decoded_frames(reads),
        !stopped_after(reads),
    decreases reads.len(),
{
    if reads.len() > 0 {
        let before = reads.drop_last();
        assert forall|i: int| 0 <= i < before.len() implies !is_terminal(#[trigger] before[i]) by {
            assert(before[i] == reads[i]);
        }
        lemma_forwards_every_frame(before);
    }
}

/// At the first terminal read the dispatcher stops: what it forwards is the
/// decoded frames read before it, and nothing read after it.
pub proof fn lemma_forwards_until_end(reads: Seq<InboundReadView>, k: int)
    requires
        0 <= k < reads.len(),
        is_terminal(reads[k]),
        forall|i: int| 0 <= i < k ==> !is_terminal(#[trigger] reads[i]),
    ensures
        forwarded(reads) == decoded_frames(reads.take(k)),
        stopped_after(reads),
{
    let head = reads.take(k);
    let upto = reads.take(k + 1);
    assert forall|i: int| 0 <= i < head.len() implies !is_terminal(#[trigger] head[i]) by {
        assert(head[i] == reads[i]);
    }
    lemma_forwards_every_frame(head);
    assert(upto.drop_last() =~= head);
    assert(upto.last() == reads[k]);
    assert(stopped_after(upto));
    assert(forwarded(upto) == forwarded(head));
    crate::dispatcher::lemma_stopped_stays(reads, k + 1);
}

/// The envelopes that a list of actions delivers, in order.
pub open spec fn deliveries(actions: Seq<ActionView>) -> Seq<PayloadView>
    decreases actions.len(),
{
    if actions.len() == 0 {
        Seq::empty()
    } else {
        let before = deliveries(actions.drop_last());
        match actions.last() {
            ActionView::Deliver(p) => before.push(p),
            _ => before,
        }
    }
}

/// The reads as the events that report them.
pub open spec fn inbound_events(reads: Seq<InboundReadView>) -> Seq<EventView> {
    Seq::new(reads.len(), |i: int| EventView::Inbound(reads[i]))
}

/// A streaming actor that is handed the reads of its inbound stream delivers
/// exactly what the dispatcher forwards, and has stopped exactly when the
/// dispatcher has.
pub proof fn lemma_actor_delivers_forwarded(s: ClientState, reads: Seq<InboundReadView>)
    requires
        well_formed(s),
        s.phase == Phase::Streaming,
    ensures
        deliveries(trace(s, inbound_events(reads))) == forwarded(reads),
        (state_after(s, inbound_events(reads)).phase == Phase::Stopped) == stopped_after(reads),
        !stopped_after(reads) ==> state_after(s, inbound_events(reads)).phase
            == Phase::Streaming,
    decreases reads.len(),
{
    let events = inbound_events(reads);
    if reads.len() > 0 {
        let before = reads.drop_last();
        lemma_actor_delivers_forwarded(s, before);
        assert(events.drop_last() =~= inbound_events(before));
        assert(events.last() == EventView::Inbound(reads.last()));
        let sb = state_after(s, inbound_events(before));
        let tb = trace(s, inbound_events(before));
        let step = emitted(sb, events.last());
        lemma_run(s, inbound_events(before));
        let t = tb + step;
        assert(trace(s, events) == t);
        if step.len() == 0 {
            assert(t =~= tb);
        } else {
            assert(step.len() == 1);
            assert(t.drop_last() =~= tb);
            assert(t.last() == step[0]);
        }
    } else {
        assert(trace(s, events).len() == 0);
    }
}

/// A unary call that succeeds fulfils an empty completion slot with the
/// server's response, and whatever is reported afterwards does not replace
/// it; a call that fails leaves the slot empty.
pub proof fn lemma_completion(response: crate::payload::Payload, later: UnaryOutcome)
    ensures
        completed(None, UnaryOutcome::Response(response)) == Some(response@),
        completed(completed(None, UnaryOutcome::Response(response)), later) == Some(response@),
        completed(None, UnaryOutcome::Failed) == None::<PayloadView>,
{
}

} // verus!
