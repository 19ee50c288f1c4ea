//! The demand-gated stream of an unbounded, high-frequency event source.
//!
//! A scan produces discovery events faster than any bound; they are queued
//! without limit, but only while a consumer is known to exist.  The producer
//! side checks for the consumer on every emission: once the consumer is
//! gone, the emission fails, the stored sender is cleared, and the caller is
//! told to halt the production process (stop the scan) rather than keep
//! producing into the void.  One already-emitted event may still be dropped
//! between the consumer disappearing and the halt: the halt is best-effort,
//! triggered by the next emission.

use vstd::prelude::*;

verus! {

/// What became of one emitted event.
#[derive(Clone, Copy, Debug, PartialEq, Eq, Structural)]
pub enum EmitOutcome {
    /// The event was queued for the consumer.
    Delivered,
    /// The consumer is gone: the event was dropped, the slot was cleared,
    /// and the production process must be halted now.
    HaltProducer,
    /// No stream is active; the event was dropped silently.
    NoSlot,
}

/// An unbounded single-consumer queue whose producer stops once the
/// consumer disappears.
pub struct DemandGatedQueue<T> {
    sender_present: bool,
    receiver_alive: bool,
    queue: Vec<T>,
    emitted: Ghost<Seq<T>>,
    taken: Ghost<Seq<T>>,
}

impl<T> DemandGatedQueue<T> {
    /// Whether a sender is stored, i.e. a stream session is active.
    pub closed spec fn is_open(self) -> bool {
        self.sender_present
    }

    /// Whether the consumer still holds its end of the stream.
    pub closed spec fn consumer_alive(self) -> bool {
        self.receiver_alive
    }

    /// Every event accepted into the stream this session, oldest first.
    pub closed spec fn emitted(self) -> Seq<T> {
        self.emitted@
    }

    /// The accepted events the consumer has taken so far, oldest first.
    pub closed spec fn taken(self) -> Seq<T> {
        self.taken@
    }

    /// The accepted events still queued for the consumer, oldest first.
    pub closed spec fn pending(self) -> Seq<T> {
        self.queue@
    }

    pub closed spec fn wf(self) -> bool {
        self.emitted@ == self.taken@ + self.queue@
    }

    /// An inactive slot: no sender, no consumer, nothing queued.
    pub fn new() -> (q: Self)
        ensures
            q.wf(),
            !q.is_open(),
            !q.consumer_alive(),
            q.emitted() == Seq::<T>::empty(),
            q.taken() == Seq::<T>::empty(),
            q.pending() == Seq::<T>::empty(),
    {
        let q = DemandGatedQueue {
            sender_present: false,
            receiver_alive: false,
            queue: Vec::new(),
            emitted: Ghost(Seq::empty()),
            taken: Ghost(Seq::empty()),
        };
        proof {
            assert(q.emitted@ =~= q.taken@ + q.queue@);
        }
        q
    }

    /// Opens a fresh stream session: stores the sender, hands the consumer
    /// its end, and forgets anything a previous session left behind.
    pub fn start(&mut self)
        ensures
            final(self).wf(),
            final(self).is_open(),
            final(self).consumer_alive(),
            final(self).emitted() == Seq::<T>::empty(),
            final(self).taken() == Seq::<T>::empty(),
            final(self).pending() == Seq::<T>::empty(),
    {
        self.sender_present = true;
        self.receiver_alive = true;
        self.queue = Vec::new();
        self.emitted = Ghost(Seq::empty());
        self.taken = Ghost(Seq::empty());
        proof {
            assert(self.emitted@ =~= self.taken@ + self.queue@);
        }
    }

    /// Offers one event to the stream.  With a live consumer it is queued;
    /// with the consumer gone the sender is cleared and the caller is told
    /// to halt production; with no active session it is dropped silently.
    pub fn emit(&mut self, v: T) -> (r: EmitOutcome)
        requires
            old(self).wf(),
        ensures
            final(self).wf(),
            final(self).taken() == old(self).taken(),
            match r {
                EmitOutcome::Delivered => {
                    &&& old(self).is_open() && old(self).consumer_alive()
                    &&& final(self).is_open() && final(self).consumer_alive()
                    &&& final(self).emitted() == old(self).emitted().push(v)
                    &&& final(self).pending() == old(self).pending().push(v)
                },
                EmitOutcome::HaltProducer => {
                    &&& old(self).is_open() && !old(self).consumer_alive()
                    &&& !final(self).is_open() && !final(self).consumer_alive()
                    &&& final(self).emitted() == old(self).emitted()
                    &&& final(self).pending() == old(self).pending()
                },
                EmitOutcome::NoSlot => {
                    &&& !old(self).is_open()
                    &&& *final(self) == *old(self)
                },
            },
    {
        if !self.sender_present {
            EmitOutcome::NoSlot
        } else if self.receiver_alive {
            self.queue.push(v);
            let it = Ghost(self.queue@.last());
            self.emitted = Ghost(self.emitted@.push(it@));
            proof {
                assert(self.emitted@ =~= self.taken@ + self.queue@);
            }
            EmitOutcome::Delivered
        } else {
            self.sender_present = false;
            EmitOutcome::HaltProducer
        }
    }

    /// Takes the oldest queued event, if any.  Emitted events come out
    /// exactly once, in emission order.
    pub fn try_next(&mut self) -> (r: Option<T>)
        requires
            old(self).wf(),
            old(self).consumer_alive(),
        ensures
            final(self).wf(),
            final(self).is_open() == old(self).is_open(),
            final(self).consumer_alive(),
            final(self).emitted() == old(self).emitted(),
            match r {
                Some(v) => {
                    &&& old(self).pending().len() > 0
                    &&& v == old(self).pending()[0]
                    &&& v == old(self).emitted()[old(self).taken().len() as int]
                    &&& final(self).taken() == old(self).taken().push(v)
                    &&& final(self).pending() == old(self).pending().subrange(
                        1,
                        old(self).pending().len() as int,
                    )
                },
                None => {
                    &&& old(self).pending().len() == 0
                    &&& *final(self) == *old(self)
                },
            },
    {
        if self.queue.len() == 0 {
            None
        } else {
            let v = self.queue.remove(0);
            let taken_now = Ghost(self.taken@.push(v));
            proof {
                assert(old(self).emitted()[old(self).taken().len() as int] == v);
                assert(self.queue@ =~= old(self).queue@.subrange(
                    1,
                    old(self).queue@.len() as int,
                ));
                assert(self.emitted@ =~= taken_now@ + self.queue@);
            }
            self.taken = taken_now;
            Some(v)
        }
    }

    /// The consumer abandons the stream.  Nothing more can be taken; the
    /// producer learns of it on its next emission.
    pub fn drop_receiver(&mut self)
        requires
            old(self).wf(),
        ensures
            final(self).wf(),
            final(self).is_open() == old(self).is_open(),
            !final(self).consumer_alive(),
            final(self).emitted() == old(self).emitted(),
            final(self).taken() == old(self).taken(),
            final(self).pending() == old(self).pending(),
    {
        self.receiver_alive = false;
    }
}

/// Law: a demand-gated stream neither drops, duplicates nor reorders while
/// its consumer keeps pace.  What the consumer has taken is exactly the
/// oldest prefix of what was emitted, and what is still queued is exactly
/// the rest.
pub proof fn lemma_stream_in_order<T>(q: DemandGatedQueue<T>)
    requires
        q.wf(),
    ensures
        q.taken() + q.pending() == q.emitted(),
        q.taken() == q.emitted().take(q.taken().len() as int),
        q.pending() == q.emitted().skip(q.taken().len() as int),
{
    assert(q.taken() =~= q.emitted().take(q.taken().len() as int));
    assert(q.pending() =~= q.emitted().skip(q.taken().len() as int));
}

} // verus!
