//! The outbound side of the duplex stream: a bounded queue of envelopes that
//! ends at an explicit close marker.

use crate::payload::{Payload, PayloadView};
use vstd::prelude::*;

verus! {

/// Capacity of the outbound queue. A producer that finds it full has to wait
/// or give the frame up.
pub const OUTBOUND_QUEUE_CAPACITY: usize = 5;

/// Value of what the queue hands over: `Some(Some(p))` is a frame,
/// `Some(None)` the close marker, `None` a queue whose producers are gone.
pub open spec fn item_view(item: Option<Option<Payload>>) -> Option<Option<PayloadView>> {
    match item {
        Some(Some(p)) => Some(Some(p@)),
        Some(None) => Some(None),
        None => None,
    }
}

/// A list of queue items as a sequence of their values.
pub open spec fn items_view(items: Seq<Option<Option<Payload>>>) -> Seq<
    Option<Option<PayloadView>>,
> {
    Seq::new(items.len(), |i: int| item_view(items[i]))
}

/// Whether the stream is closed once `items` have been handed over, having
/// been `closed` before: it closes at the first item that is no frame and
/// stays closed.
pub open spec fn closed_after(closed: bool, items: Seq<Option<Option<PayloadView>>>) -> bool
    decreases items.len(),
{
    if items.len() == 0 {
        closed
    } else {
        closed_after(closed, items.drop_last()) || !(items.last() matches Some(Some(_)))
    }
}

/// The frames that the stream yields for `items`, having been `closed`
/// before: each frame handed over while the stream is still open, in order.
pub open spec fn frames_yielded(closed: bool, items: Seq<Option<Option<PayloadView>>>) -> Seq<
    PayloadView,
>
    decreases items.len(),
{
    if items.len() == 0 {
        Seq::empty()
    } else {
        let before = frames_yielded(closed, items.drop_last());
        match items.last() {
            Some(Some(p)) if !closed_after(closed, items.drop_last()) => before.push(p),
            _ => before,
        }
    }
}

/// The outbound stream as the transport sees it: it passes frames on until it
/// is told to close, and from then on yields nothing.
pub struct CloseableChannel {
    closed: bool,
}

impl CloseableChannel {
    /// Whether the stream has been closed.
    pub closed spec fn closed(&self) -> bool {
        self.closed
    }

    /// An open stream.
    pub fn new() -> (channel: CloseableChannel)
        ensures
            !channel.closed(),
    {
        CloseableChannel { closed: false }
    }

    /// Whether the stream has been closed.
    pub fn is_closed(&self) -> (closed: bool)
        ensures
            closed == self.closed(),
    {
        self.closed
    }

    /// Closes the stream without sending anything further.
    pub fn close(&mut self)
        ensures
            final(self).closed(),
    {
        self.closed = true;
    }

    /// Takes what the queue handed over and returns the frame to put on the
    /// wire, or `None` where the stream ends. An open stream passes a frame
    /// on and stays open; the close marker or an exhausted queue closes it. A
    /// closed stream yields nothing, whatever it is handed.
    pub fn next_frame(&mut self, item: Option<Option<Payload>>) -> (frame: Option<Payload>)
        ensures
            final(self).closed() == (old(self).closed() || !(item matches Some(Some(_)))),
            frame == (match item {
                Some(Some(p)) if !old(self).closed() => Some(p),
                _ => None,
            }),
    {
        if self.closed {
            return None;
        }
        match item {
            Some(Some(p)) => Some(p),
            _ => {
                self.closed = true;
                None
            },
        }
    }

    /// Runs the stream over a whole list of queue items and returns the
    /// frames put on the wire.
    pub fn drain(&mut self, items: Vec<Option<Option<Payload>>>) -> (frames: Vec<Payload>)
        ensures
            final(self).closed() == closed_after(old(self).closed(), items_view(items@)),
            crate::payload::payloads_view(frames@) == frames_yielded(
                old(self).closed(),
                items_view(items@),
            ),
    {
        let ghost all = items_view(items@);
        let ghost closed0 = self.closed();
        let mut frames: Vec<Payload> = Vec::new();
        let mut items = items;
        let ghost original = items@;
        let mut i: usize = 0;
        let n = items.len();
        assert(all.take(0) =~= Seq::<Option<Option<PayloadView>>>::empty());
        assert(crate::payload::payloads_view(frames@) =~= Seq::<PayloadView>::empty());
        while i < n
            invariant
                0 <= i <= n,
                n == original.len(),
                items@.len() == n - i,
                all == items_view(original),
                items@ =~= original.subrange(i as int, n as int),
                self.closed() == closed_after(closed0, all.take(i as int)),
                crate::payload::payloads_view(frames@) == frames_yielded(
                    closed0,
                    all.take(i as int),
                ),
            decreases n - i,
        {
            let ghost before = all.take(i as int);
            let ghost upto = all.take(i + 1);
            let ghost was_closed = self.closed();
            let ghost old_frames = crate::payload::payloads_view(frames@);
            let item = items.remove(0);
            assert(item == original[i as int]);
            proof {
                assert(upto.drop_last() =~= before);
                assert(upto.last() == item_view(item));
            }
            match self.next_frame(item) {
                Some(p) => {
                    frames.push(p);
                    assert(crate::payload::payloads_view(frames@) =~= old_frames.push(p@));
                },
                None => {},
            }
            i += 1;
        }
        assert(all.take(n as int) =~= all);
        frames
    }
}

/// A closed stream stays closed and yields nothing, whatever it is handed.
pub proof fn lemma_closed_yields_nothing(items: Seq<Option<Option<PayloadView>>>)
    ensures
        closed_after(true, items),
        frames_yielded(true, items) == Seq::<PayloadView>::empty(),
    decreases items.len(),
{
    if items.len() > 0 {
        lemma_closed_yields_nothing(items.drop_last());
    }
}

/// While every item is a frame, an open stream stays open and yields each of
/// them, in order.
pub proof fn lemma_open_passes_frames(items: Seq<Option<Option<PayloadView>>>)
    requires
        forall|i: int| 0 <= i < items.len() ==> (#[trigger] items[i]) matches Some(Some(_)),
    ensures
        !closed_after(false, items),
        frames_yielded(false, items).len() == items.len(),
        forall|i: int|
            0 <= i < items.len() ==> items[i] == Some(
                Some(#[trigger] frames_yielded(false, items)[i]),
            ),
    decreases items.len(),
{
    if items.len() > 0 {
        let before = items.drop_last();
        assert forall|i: int| 0 <= i < before.len() implies (#[trigger] before[i]) matches Some(
            Some(_),
        ) by {
            assert(before[i] == items[i]);
        }
        lemma_open_passes_frames(before);
        assert forall|i: int| 0 <= i < items.len() implies items[i] == Some(
            Some(#[trigger] frames_yielded(false, items)[i]),
        ) by {
            if i < before.len() {
                assert(before[i] == items[i]);
                assert(frames_yielded(false, items)[i] == frames_yielded(false, before)[i]);
            }
        }
    }
}

/// The stream ends at the first item that is no frame: what it yields is what
/// it yields for the items before it, and nothing handed over afterwards
/// reaches the wire.
pub proof fn lemma_close_ends_stream(items: Seq<Option<Option<PayloadView>>>, k: int)
    requires
        0 <= k < items.len(),
        !(items[k] matches Some(Some(_))),
    ensures
        closed_after(false, items),
        frames_yielded(false, items) == frames_yielded(false, items.take(k)),
    decreases items.len() - k,
{
    if k + 1 < items.len() {
        let before = items.drop_last();
        assert(before[k] == items[k]);
        lemma_close_ends_stream(before, k);
        assert(before.take(k) =~= items.take(k));
    } else {
        assert(items.drop_last() =~= items.take(k));
    }
}

} // verus!
