use vstd::prelude::*;

verus! {

/// Frames waiting to be handed to the transport, oldest first.
#[derive(Debug)]
pub struct OutboundQueue {
    frames: Vec<String>,
}

/// Queue contents after appending each of `fs`, in order.
pub open spec fn enqueued_all(q: Seq<String>, fs: Seq<String>) -> Seq<String>
    decreases fs.len(),
{
    if fs.len() == 0 {
        q
    } else {
        enqueued_all(q.push(fs[0]), fs.drop_first())
    }
}

/// The frames that repeated removal from the front hands out, in the order
/// they are handed out.
pub open spec fn delivered_all(q: Seq<String>) -> Seq<String>
    decreases q.len(),
{
    if q.len() == 0 {
        Seq::empty()
    } else {
        seq![q[0]] + delivered_all(q.drop_first())
    }
}

impl View for OutboundQueue {
    type V = Seq<String>;

    closed spec fn view(&self) -> Seq<String> {
        self.frames@
    }
}

impl OutboundQueue {
    pub fn new() -> (r: Self)
        ensures
            r@ == Seq::<String>::empty(),
    {
        OutboundQueue { frames: Vec::new() }
    }

    pub fn len(&self) -> (r: usize)
        ensures
            r == self@.len(),
    {
        self.frames.len()
    }

    pub fn is_empty(&self) -> (r: bool)
        ensures
            r == (self@.len() == 0),
    {
        self.frames.len() == 0
    }

    /// Appends a frame behind every frame already waiting.
    pub fn enqueue(&mut self, frame: String)
        ensures
            final(self)@ == old(self)@.push(frame),
    {
        self.frames.push(frame);
    }

    /// The frame that the drain routine hands to the transport next.
    pub fn peek(&self) -> (r: Option<&String>)
        ensures
            self@.len() == 0 ==> r.is_none(),
            self@.len() > 0 ==> r == Some(&self@[0]),
    {
        if self.frames.len() == 0 {
            None
        } else {
            Some(&self.frames[0])
        }
    }

    /// Removes and returns the oldest frame.
    pub fn take_next(&mut self) -> (r: Option<String>)
        ensures
            old(self)@.len() == 0 ==> r.is_none() && final(self)@ == old(self)@,
            old(self)@.len() > 0 ==> r == Some(old(self)@[0]) && final(self)@
                == old(self)@.drop_first(),
    {
        if self.frames.len() == 0 {
            None
        } else {
            Some(self.frames.remove(0))
        }
    }
}

/// Appending never reorders: after appending `fs`, the queue holds what it held
/// before followed by `fs`.
pub proof fn lemma_enqueued_all(q: Seq<String>, fs: Seq<String>)
    ensures
        enqueued_all(q, fs) == q + fs,
    decreases fs.len(),
{
    if fs.len() > 0 {
        lemma_enqueued_all(q.push(fs[0]), fs.drop_first());
        assert(q.push(fs[0]) + fs.drop_first() =~= q + fs);
    } else {
        assert(q + fs =~= q);
    }
}

/// Draining a queue hands its frames out exactly in queue order.
pub proof fn lemma_delivered_all(q: Seq<String>)
    ensures
        delivered_all(q) == q,
    decreases q.len(),
{
    if q.len() > 0 {
        lemma_delivered_all(q.drop_first());
        assert(seq![q[0]] + q.drop_first() =~= q);
    } else {
        assert(q =~= Seq::<String>::empty());
    }
}

/// Frames are delivered to the transport in the relative order in which they
/// were enqueued: draining after appending `fs` to a queue holding `q` yields
/// `q` followed by `fs`.
pub proof fn lemma_fifo_delivery(q: Seq<String>, fs: Seq<String>)
    ensures
        delivered_all(enqueued_all(q, fs)) == q + fs,
{
    lemma_enqueued_all(q, fs);
    lemma_delivered_all(q + fs);
}

} // verus!
