//! Bounded first-in-first-out queue of ready-to-send 64-byte frames.
//! The queue never grows past its capacity: a push against a full queue
//! is refused and leaves the queue unchanged, so a producer that must not
//! lose frames has to wait for the consumer to drain one.

use vstd::prelude::*;

verus! {

/// Bounded FIFO of outbound frames, shared between the dispatcher, the
/// facade, and the writer that drains it.
pub struct OutboundQueue {
    items: Vec<Vec<u8>>,
    capacity: usize,
}

impl OutboundQueue {
    /// The queued frames, oldest first.
    pub closed spec fn contents(&self) -> Seq<Seq<u8>> {
        self.items.deep_view()
    }

    /// The fixed capacity the queue was created with.
    pub closed spec fn cap(&self) -> int {
        self.capacity as int
    }

    /// The queue never holds more frames than its capacity.
    pub closed spec fn wf(&self) -> bool {
        self.items@.len() <= self.capacity
    }

    /// An empty queue of the given capacity.
    pub fn new(capacity: usize) -> (q: OutboundQueue)
        ensures
            q.wf(),
            q.contents() == Seq::<Seq<u8>>::empty(),
            q.cap() == capacity as int,
    {
        let q = OutboundQueue { items: Vec::new(), capacity };
        proof {
            assert(q.contents() =~~= Seq::<Seq<u8>>::empty());
        }
        q
    }

    /// How many frames are queued.
    pub fn len(&self) -> (n: usize)
        ensures
            n as int == self.contents().len(),
    {
        self.items.len()
    }

    /// Appends `frame` when there is room; a full queue refuses the frame
    /// and is left exactly as it was.
    pub fn push(&mut self, frame: Vec<u8>) -> (ok: bool)
        requires
            old(self).wf(),
        ensures
            final(self).wf(),
            final(self).cap() == old(self).cap(),
            ok <==> old(self).contents().len() < old(self).cap(),
            ok ==> final(self).contents() == old(self).contents().push(frame@),
            !ok ==> final(self).contents() == old(self).contents(),
    {
        if self.items.len() < self.capacity {
            let ghost prev = self.contents();
            self.items.push(frame);
            proof {
                assert(self.contents() =~~= prev.push(frame.deep_view()));
                assert(frame.deep_view() =~= frame@);
            }
            true
        } else {
            false
        }
    }

    /// Removes and returns the oldest frame, or nothing when the queue is
    /// empty.
    pub fn pop(&mut self) -> (r: Option<Vec<u8>>)
        requires
            old(self).wf(),
        ensures
            final(self).wf(),
            final(self).cap() == old(self).cap(),
            old(self).contents().len() == 0 ==> r is None && final(self).contents()
                == old(self).contents(),
            old(self).contents().len() > 0 ==> r is Some && r.unwrap()@
                == old(self).contents()[0] && final(self).contents()
                == old(self).contents().drop_first(),
    {
        if self.items.len() > 0 {
            let frame = self.items.remove(0);
            proof {
                assert(self.contents() =~~= old(self).contents().drop_first());
                assert(frame.deep_view() =~= frame@);
            }
            Some(frame)
        } else {
            None
        }
    }
}

} // verus!
