//! The bounded, ordered handoff of spectral frames from the analyzer to the
//! renderer.
//!
//! This is the single-producer, single-consumer queue discipline itself:
//! frames leave in exactly the order they entered, nothing is dropped,
//! nothing is duplicated. A full channel rejects the frame and hands it back
//! — the threaded wrapper around this queue turns that rejection into the
//! producer blocking until the consumer drains, so backpressure stalls the
//! decode callback rather than losing frames. A closed channel (the consumer
//! is gone) rejects every send at once, so the producer fails fast instead of
//! retrying forever.

use vstd::prelude::*;
use crate::frame::SpectralFrame;

verus! {

/// Why a send was rejected; the frame comes back with the rejection, so no
/// frame is ever dropped silently.
#[derive(Debug)]
pub enum SendRejection {
    /// The channel holds `capacity` frames: the producer must wait for the
    /// consumer and offer the frame again.
    Full(SpectralFrame),
    /// The consumer is gone: the producer must stop delivering.
    Closed(SpectralFrame),
}

/// A frame queued for the renderer: what `send` appends to the contents.
pub open spec fn send_model(contents: Seq<Seq<u32>>, frame: Seq<u32>) -> Seq<Seq<u32>> {
    contents.push(frame)
}

/// What a receive on non-empty contents yields: the oldest frame, and the
/// contents without it.
pub open spec fn receive_model(contents: Seq<Seq<u32>>) -> (Seq<u32>, Seq<Seq<u32>>) {
    (contents[0], contents.drop_first())
}

/// A bounded FIFO queue of spectral frames.
pub struct FrameChannel {
    queue: Vec<SpectralFrame>,
    capacity: usize,
    closed: bool,
}

impl FrameChannel {
    /// The queued frames, oldest first, each seen as its bin sequence.
    pub closed spec fn contents(&self) -> Seq<Seq<u32>> {
        self.queue@.map_values(|f: SpectralFrame| f@)
    }

    /// The fixed bound on how many frames may be queued at once.
    pub closed spec fn capacity_spec(&self) -> int {
        self.capacity as int
    }

    /// Whether the consumer has gone away.
    pub closed spec fn is_closed(&self) -> bool {
        self.closed
    }

    /// Validity: a positive bound that the queue never exceeds.
    pub closed spec fn wf(&self) -> bool {
        self.queue@.len() <= self.capacity && self.capacity >= 1
    }

    /// An open, empty channel with the given bound.
    pub fn new(capacity: usize) -> (c: FrameChannel)
        requires
            capacity >= 1,
        ensures
            c.wf(),
            c.capacity_spec() == capacity,
            c.contents() == Seq::<Seq<u32>>::empty(),
            !c.is_closed(),
    {
        let c = FrameChannel { queue: Vec::new(), capacity, closed: false };
        proof {
            assert(c.contents() =~= Seq::<Seq<u32>>::empty());
        }
        c
    }

    /// How many frames are queued.
    pub fn len(&self) -> (n: usize)
        requires
            self.wf(),
        ensures
            n == self.contents().len(),
    {
        self.queue.len()
    }

    /// Offers one frame. It is appended exactly when the channel is open and
    /// below capacity; otherwise the same frame comes back with the reason,
    /// so no frame is ever lost.
    pub fn try_send(&mut self, frame: SpectralFrame) -> (r: Result<(), SendRejection>)
        requires
            old(self).wf(),
        ensures
            final(self).wf(),
            final(self).capacity_spec() == old(self).capacity_spec(),
            final(self).is_closed() == old(self).is_closed(),
            match r {
                Ok(()) => {
                    &&& !old(self).is_closed()
                    &&& old(self).contents().len() < old(self).capacity_spec()
                    &&& final(self).contents() == send_model(old(self).contents(), frame@)
                },
                Err(SendRejection::Closed(f)) => {
                    &&& old(self).is_closed()
                    &&& f@ == frame@
                    &&& final(self).contents() == old(self).contents()
                },
                Err(SendRejection::Full(f)) => {
                    &&& !old(self).is_closed()
                    &&& old(self).contents().len() == old(self).capacity_spec()
                    &&& f@ == frame@
                    &&& final(self).contents() == old(self).contents()
                },
            },
    {
        if self.closed {
            Err(SendRejection::Closed(frame))
        } else if self.queue.len() == self.capacity {
            Err(SendRejection::Full(frame))
        } else {
            let ghost pre = self.queue@;
            self.queue.push(frame);
            proof {
                assert(self.queue@.map_values(|f: SpectralFrame| f@) =~= pre.map_values(
                    |f: SpectralFrame| f@,
                ).push(frame@));
            }
            Ok(())
        }
    }

    /// Removes and returns the oldest queued frame, or nothing when the queue
    /// is empty. Never blocks the render loop.
    pub fn try_receive(&mut self) -> (r: Option<SpectralFrame>)
        requires
            old(self).wf(),
        ensures
            final(self).wf(),
            final(self).capacity_spec() == old(self).capacity_spec(),
            final(self).is_closed() == old(self).is_closed(),
            match r {
                Some(f) => {
                    &&& old(self).contents().len() > 0
                    &&& f@ == receive_model(old(self).contents()).0
                    &&& final(self).contents() == receive_model(old(self).contents()).1
                },
                None => {
                    &&& old(self).contents().len() == 0
                    &&& final(self).contents() == old(self).contents()
                },
            },
    {
        if self.queue.len() == 0 {
            None
        } else {
            let ghost pre = self.queue@;
            let f = self.queue.remove(0);
            proof {
                assert(self.queue@.map_values(|f: SpectralFrame| f@) =~= pre.map_values(
                    |f: SpectralFrame| f@,
                ).drop_first());
            }
            Some(f)
        }
    }

    /// Marks the consumer as gone: every later send is rejected at once. The
    /// frames already queued stay available for draining.
    pub fn close(&mut self)
        requires
            old(self).wf(),
        ensures
            final(self).wf(),
            final(self).capacity_spec() == old(self).capacity_spec(),
            final(self).is_closed(),
            final(self).contents() == old(self).contents(),
    {
        self.closed = true;
    }
}

/// The contents after sending every frame of `frames` in order into a channel
/// holding `contents`.
pub open spec fn send_all(contents: Seq<Seq<u32>>, frames: Seq<Seq<u32>>) -> Seq<Seq<u32>>
    decreases frames.len(),
{
    if frames.len() == 0 {
        contents
    } else {
        send_all(send_model(contents, frames[0]), frames.drop_first())
    }
}

/// The frames that repeated receives yield, in order, until the channel is
/// empty.
pub open spec fn drain(contents: Seq<Seq<u32>>) -> Seq<Seq<u32>>
    decreases contents.len(),
{
    if contents.len() == 0 {
        Seq::empty()
    } else {
        seq![receive_model(contents).0] + drain(receive_model(contents).1)
    }
}

/// Sends append: after sending `frames` in order, the queue holds the old
/// contents followed by `frames`.
pub proof fn lemma_send_all_appends(contents: Seq<Seq<u32>>, frames: Seq<Seq<u32>>)
    ensures
        send_all(contents, frames) == contents + frames,
    decreases frames.len(),
{
    if frames.len() == 0 {
        assert(send_all(contents, frames) =~= contents + frames);
    } else {
        lemma_send_all_appends(send_model(contents, frames[0]), frames.drop_first());
        assert(contents.push(frames[0]) + frames.drop_first() =~= contents + frames);
    }
}

/// Receives take from the front: draining a queue yields exactly its
/// contents, oldest first.
pub proof fn lemma_drain_yields_contents(contents: Seq<Seq<u32>>)
    ensures
        drain(contents) == contents,
    decreases contents.len(),
{
    if contents.len() == 0 {
        assert(drain(contents) =~= contents);
    } else {
        lemma_drain_yields_contents(contents.drop_first());
        assert(seq![contents[0]] + contents.drop_first() =~= contents);
    }
}

/// FIFO order: for any sequence of frames sent into an empty channel, the
/// receives return exactly that sequence — same order, no loss, no
/// duplication. Capacity does not change the order: a full channel hands the
/// frame back untouched for a later, still in-order, send.
pub proof fn lemma_fifo_order(frames: Seq<Seq<u32>>)
    ensures
        drain(send_all(Seq::empty(), frames)) == frames,
{
    lemma_send_all_appends(Seq::empty(), frames);
    assert(Seq::empty() + frames =~= frames);
    lemma_drain_yields_contents(frames);
}

} // verus!
