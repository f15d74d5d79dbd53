//! The inbound dispatcher: what becomes of each read from the inbound
//! stream. A decoded frame is forwarded, a malformed frame is dropped, and
//! the end of the stream, clean or not, ends the dispatcher.

use crate::payload::{payloads_view, Payload, PayloadView};
use vstd::prelude::*;

verus! {

/// Outcome of one read from the inbound stream.
#[derive(Clone, Debug, PartialEq, Eq)]
pub enum InboundRead {
    /// A frame that decoded.
    Frame(Payload),
    /// A frame that did not decode; the stream itself goes on.
    Malformed,
    /// The stream failed.
    StreamError,
    /// The stream ended cleanly.
    End,
}

/// Mathematical value of an [`InboundRead`].
pub enum InboundReadView {
    Frame(PayloadView),
    Malformed,
    StreamError,
    End,
}

impl View for InboundRead {
    type V = InboundReadView;

    open spec fn view(&self) -> InboundReadView {
        match self {
            InboundRead::Frame(p) => InboundReadView::Frame(p@),
            InboundRead::Malformed => InboundReadView::Malformed,
            InboundRead::StreamError => InboundReadView::StreamError,
            InboundRead::End => InboundReadView::End,
        }
    }
}

/// A list of reads as a sequence of their values.
pub open spec fn reads_view(reads: Seq<InboundRead>) -> Seq<InboundReadView> {
    Seq::new(reads.len(), |i: int| reads[i]@)
}

/// A read that ends the dispatcher: a stream error or the clean end.
pub open spec fn is_terminal(read: InboundReadView) -> bool {
    read is StreamError || read is End
}

/// Whether the dispatcher has stopped once it has seen `reads`.
pub open spec fn stopped_after(reads: Seq<InboundReadView>) -> bool
    decreases reads.len(),
{
    if reads.len() == 0 {
        false
    } else {
        stopped_after(reads.drop_last()) || is_terminal(reads.last())
    }
}

/// The frames that the dispatcher forwards for `reads`: each decoded frame
/// read before it stopped, in the order read.
pub open spec fn forwarded(reads: Seq<InboundReadView>) -> Seq<PayloadView>
    decreases reads.len(),
{
    if reads.len() == 0 {
        Seq::empty()
    } else {
        let before = forwarded(reads.drop_last());
        match reads.last() {
            InboundReadView::Frame(p) if !stopped_after(reads.drop_last()) => before.push(p),
            _ => before,
        }
    }
}

/// The decoded frames among `reads`, in the order read.
pub open spec fn decoded_frames(reads: Seq<InboundReadView>) -> Seq<PayloadView>
    decreases reads.len(),
{
    if reads.len() == 0 {
        Seq::empty()
    } else {
        let before = decoded_frames(reads.drop_last());
        match reads.last() {
            InboundReadView::Frame(p) => before.push(p),
            _ => before,
        }
    }
}

/// Where the dispatcher stands.
#[derive(Clone, Copy, Debug, PartialEq, Eq, Structural)]
pub enum DispatchPhase {
    /// Nothing has been read yet.
    AwaitingFirst,
    /// The first read is done; the main loop runs.
    Looping,
    /// The stream has ended.
    Finished,
}

/// What the dispatcher does with one read.
#[derive(Clone, Debug, PartialEq, Eq)]
pub enum Dispatch {
    /// Hand the frame to the connection actor.
    Forward(Payload),
    /// Drop the read and go on reading.
    Skip,
    /// Stop reading; the connection actor stops.
    Stop,
}

/// The dispatcher's state.
pub struct InboundDispatcher {
    phase: DispatchPhase,
}

impl InboundDispatcher {
    /// Where the dispatcher stands.
    pub closed spec fn phase(&self) -> DispatchPhase {
        self.phase
    }

    /// A dispatcher that has read nothing yet.
    pub fn new() -> (dispatcher: InboundDispatcher)
        ensures
            dispatcher.phase() == DispatchPhase::AwaitingFirst,
    {
        InboundDispatcher { phase: DispatchPhase::AwaitingFirst }
    }

    /// Where the dispatcher stands.
    pub fn current_phase(&self) -> (phase: DispatchPhase)
        ensures
            phase == self.phase(),
    {
        self.phase
    }

    /// Decides on one read. A finished dispatcher stops whatever it is
    /// handed. Otherwise a decoded frame is forwarded and a malformed frame
    /// skipped, both leaving the dispatcher in its main loop, and a stream
    /// error or the clean end finishes it.
    pub fn on_read(&mut self, read: InboundRead) -> (step: Dispatch)
        ensures
            old(self).phase() == DispatchPhase::Finished ==> step is Stop && final(self).phase()
                == DispatchPhase::Finished,
            old(self).phase() != DispatchPhase::Finished ==> match read {
                InboundRead::Frame(p) => step == Dispatch::Forward(p) && final(self).phase()
                    == DispatchPhase::Looping,
                InboundRead::Malformed => step is Skip && final(self).phase()
                    == DispatchPhase::Looping,
                InboundRead::StreamError | InboundRead::End => {
                    step is Stop && final(self).phase() == DispatchPhase::Finished
                },
            },
    {
        if self.phase == DispatchPhase::Finished {
            return Dispatch::Stop;
        }
        match read {
            InboundRead::Frame(p) => {
                self.phase = DispatchPhase::Looping;
                Dispatch::Forward(p)
            },
            InboundRead::Malformed => {
                self.phase = DispatchPhase::Looping;
                Dispatch::Skip
            },
            InboundRead::StreamError | InboundRead::End => {
                self.phase = DispatchPhase::Finished;
                Dispatch::Stop
            },
        }
    }

    /// Runs a fresh dispatcher over a recorded list of reads: one first read,
    /// then the loop, which ends with the list or at the first terminal read.
    /// Returns the frames forwarded and whether the dispatcher stopped.
    pub fn receive_bi_stream(reads: Vec<InboundRead>) -> (out: (Vec<Payload>, bool))
        ensures
            payloads_view(out.0@) == forwarded(reads_view(reads@)),
            out.1 == stopped_after(reads_view(reads@)),
    {
        let ghost all = reads_view(reads@);
        let ghost original = reads@;
        let mut dispatcher = InboundDispatcher::new();
        let mut reads = reads;
        let mut events: Vec<Payload> = Vec::new();
        let n = reads.len();
        assert(payloads_view(events@) =~= Seq::<PayloadView>::empty());
        assert(all.take(0) =~= Seq::<InboundReadView>::empty());
        if n == 0 {
            assert(all =~= Seq::<InboundReadView>::empty());
            return (events, false);
        }
        let first = reads.remove(0);
        proof {
            assert(first == original[0]);
            assert(all.take(1).drop_last() =~= all.take(0));
            assert(all.take(1).last() == first@);
            assert(!stopped_after(all.take(0)));
            assert(forwarded(all.take(0)) =~= Seq::<PayloadView>::empty());
        }
        match dispatcher.on_read(first) {
            Dispatch::Forward(p) => {
                events.push(p);
                assert(payloads_view(events@) =~= Seq::<PayloadView>::empty().push(p@));
            },
            _ => {},
        }
        let mut i: usize = 1;
        while i < n && dispatcher.current_phase() != DispatchPhase::Finished
            invariant
                1 <= i <= n,
                n == original.len(),
                all == reads_view(original),
                reads@ =~= original.subrange(i as int, n as int),
                (dispatcher.phase() == DispatchPhase::Finished) == stopped_after(
                    all.take(i as int),
                ),
                payloads_view(events@) == forwarded(all.take(i as int)),
            decreases n - i,
        {
            let ghost sofar = payloads_view(events@);
            let item = reads.remove(0);
            proof {
                assert(item == original[i as int]);
                assert(all.take(i + 1).drop_last() =~= all.take(i as int));
                assert(all.take(i + 1).last() == item@);
            }
            match dispatcher.on_read(item) {
                Dispatch::Forward(p) => {
                    events.push(p);
                    assert(payloads_view(events@) =~= sofar.push(p@));
                },
                _ => {},
            }
            i += 1;
        }
        proof {
            lemma_stopped_stays(all, i as int);
            assert(all.take(n as int) =~= all);
        }
        (events, dispatcher.current_phase() == DispatchPhase::Finished)
    }
}

/// Once the dispatcher has stopped on a prefix of the reads, the rest
/// changes nothing: it stays stopped and forwards no more.
pub proof fn lemma_stopped_stays(reads: Seq<InboundReadView>, k: int)
    requires
        0 <= k <= reads.len(),
    ensures
        stopped_after(reads.take(k)) ==> stopped_after(reads) && forwarded(reads) == forwarded(
            reads.take(k),
        ),
    decreases reads.len() - k,
{
    if k < reads.len() {
        lemma_stopped_stays(reads, k + 1);
        assert(reads.take(k + 1).drop_last() =~= reads.take(k));
    } else {
        assert(reads.take(k) =~= reads);
    }
}

} // verus!
