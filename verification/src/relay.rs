//! Broadcast topics.
//!
//! Two relays carry events from delegate callbacks to any number of
//! independent subscribers, and neither ever blocks inside a callback:
//!
//! * [`WatchTopic`] keeps only the latest value of a monotonic state.  New
//!   subscribers immediately see the most recent value; overwritten values
//!   are discarded without any error.
//! * [`BroadcastTopic`] keeps a bounded backlog of discrete events with one
//!   independent cursor per subscriber.  When the backlog overflows, the
//!   oldest event is dropped; a subscriber whose cursor falls off the
//!   retained window observes a lag on its next receive and resumes from
//!   the oldest retained event.
//!
//! A topic with no subscribers still accepts publishes; they are simply
//! dropped once they leave the retained window.

use vstd::prelude::*;

verus! {

/// The backlog capacity every broadcast topic of a delegate scope is
/// created with.
pub const TOPIC_CAPACITY: usize = 16;

/// The abstract values of a sequence of events.
pub open spec fn views_of<T: DeepView>(s: Seq<T>) -> Seq<T::V> {
    s.map(|i: int, x: T| x.deep_view())
}

/// An event that can be handed to one subscriber while the stored copy
/// stays behind for the others.  The duplicate carries the same abstract
/// value as the original.
pub trait Dup: DeepView + Sized {
    fn dup(&self) -> (r: Self)
        ensures
            r.deep_view() == self.deep_view(),
    ;
}

impl Dup for () {
    fn dup(&self) -> (r: ()) {
    }
}

/// A single-slot relay for a monotonic state: it retains only the latest
/// published value, and a new subscriber sees that value at once.
pub struct WatchTopic<T> {
    latest: Option<T>,
    count: u64,
    published: Ghost<Seq<T>>,
    seen: Vec<u64>,
}

impl<T: Dup> WatchTopic<T> {
    /// Everything ever published, oldest first.  Only the last element is
    /// still retained.
    pub closed spec fn history(self) -> Seq<T> {
        self.published@
    }

    pub closed spec fn receiver_count(self) -> int {
        self.seen@.len() as int
    }

    /// How many publishes the given receiver has observed.
    pub closed spec fn receiver_seen(self, rid: int) -> int {
        self.seen@[rid] as int
    }

    pub closed spec fn wf(self) -> bool {
        &&& self.count == self.published@.len()
        &&& match self.latest {
            Some(v) => self.count > 0 && v == self.published@.last(),
            None => self.count == 0,
        }
        &&& forall|r: int| 0 <= r < self.seen@.len() ==> #[trigger] self.seen@[r] <= self.count
    }

    /// An empty topic: nothing published, nobody subscribed.
    pub fn new() -> (t: Self)
        ensures
            t.wf(),
            t.history() == Seq::<T>::empty(),
            t.receiver_count() == 0,
    {
        WatchTopic { latest: None, count: 0, published: Ghost(Seq::empty()), seen: Vec::new() }
    }

    /// Publishes a value, overwriting whatever was retained.  Never blocks
    /// and never fails, whether or not anyone subscribed.
    pub fn try_broadcast(&mut self, v: T)
        requires
            old(self).wf(),
            old(self).history().len() < u64::MAX,
        ensures
            final(self).wf(),
            final(self).history() == old(self).history().push(v),
            final(self).receiver_count() == old(self).receiver_count(),
            forall|r: int|
                0 <= r < old(self).receiver_count() ==> final(self).receiver_seen(r) == old(self).receiver_seen(r),
    {
        self.latest = Some(v);
        self.count = self.count + 1;
        self.published = Ghost(self.published@.push(v));
    }

    /// Adds an independent receiver.  If anything was ever published, the
    /// new receiver immediately has the latest value pending.
    pub fn new_receiver(&mut self) -> (rid: usize)
        requires
            old(self).wf(),
        ensures
            final(self).wf(),
            rid == old(self).receiver_count(),
            final(self).receiver_count() == old(self).receiver_count() + 1,
            final(self).history() == old(self).history(),
            forall|r: int|
                0 <= r < old(self).receiver_count() ==> final(self).receiver_seen(r) == old(self).receiver_seen(r),
            final(self).receiver_seen(rid as int) == if old(self).history().len() > 0 {
                old(self).history().len() - 1
            } else {
                0
            },
    {
        let rid = self.seen.len();
        if self.count > 0 {
            self.seen.push(self.count - 1);
        } else {
            self.seen.push(0);
        }
        rid
    }

    /// Takes the latest value if this receiver has not observed it yet;
    /// `None` means nothing new was published since the last receive.
    pub fn recv(&mut self, rid: usize) -> (r: Option<T>)
        requires
            old(self).wf(),
            rid < old(self).receiver_count(),
        ensures
            final(self).wf(),
            final(self).history() == old(self).history(),
            final(self).receiver_count() == old(self).receiver_count(),
            forall|q: int|
                0 <= q < old(self).receiver_count() && q != rid ==> final(self).receiver_seen(q)
                    == old(self).receiver_seen(q),
            match r {
                Some(v) => {
                    &&& old(self).receiver_seen(rid as int) < old(self).history().len()
                    &&& v.deep_view() == old(self).history().last().deep_view()
                    &&& final(self).receiver_seen(rid as int) == old(self).history().len()
                },
                None => {
                    &&& old(self).receiver_seen(rid as int) == old(self).history().len()
                    &&& final(self).receiver_seen(rid as int) == old(self).receiver_seen(rid as int)
                },
            },
    {
        if self.seen[rid] < self.count {
            self.seen.set(rid, self.count);
            match &self.latest {
                Some(v) => Some(v.dup()),
                None => None,  // unreachable: the count is positive
            }
        } else {
            None
        }
    }
}

/// What one receive from a [`BroadcastTopic`] yields.
pub enum TopicRecv<T> {
    /// The next event for this receiver.
    Item(T),
    /// The receiver fell more than the capacity behind; events were missed
    /// and the cursor now stands at the oldest retained event.
    Lagged,
    /// Nothing published beyond this receiver's cursor yet.
    Pending,
}

struct Cursor<T> {
    at: u64,
    active: bool,
    start: Ghost<int>,
    got: Ghost<Seq<T>>,
}

/// A bounded multi-subscriber event log.  Every subscriber has its own
/// cursor; the publisher never blocks and drops the oldest event once the
/// backlog exceeds the capacity.
pub struct BroadcastTopic<T> {
    capacity: usize,
    buf: Vec<T>,
    base: u64,
    n_active: usize,
    history: Ghost<Seq<T>>,
    cursors: Vec<Cursor<T>>,
}

impl<T: Dup> BroadcastTopic<T> {
    /// Everything ever published, oldest first.
    pub closed spec fn history(self) -> Seq<T> {
        self.history@
    }

    /// The absolute index of the oldest event still retained.
    pub closed spec fn base_index(self) -> int {
        self.base as int
    }

    pub closed spec fn capacity(self) -> int {
        self.capacity as int
    }

    /// How many cursors exist, closed ones included.
    pub closed spec fn receivers(self) -> int {
        self.cursors@.len() as int
    }

    pub closed spec fn receiver_active(self, rid: int) -> bool {
        self.cursors@[rid].active
    }

    /// The absolute index this receiver reads next.
    pub closed spec fn cursor_at(self, rid: int) -> int {
        self.cursors@[rid].at as int
    }

    /// The absolute index from which this receiver has observed everything.
    pub closed spec fn cursor_start(self, rid: int) -> int {
        self.cursors@[rid].start@
    }

    /// The events this receiver has been handed, oldest first.
    pub closed spec fn cursor_got(self, rid: int) -> Seq<T> {
        self.cursors@[rid].got@
    }

    spec fn count_active(s: Seq<Cursor<T>>) -> int
        decreases s.len(),
    {
        if s.len() == 0 {
            0
        } else {
            Self::count_active(s.drop_last()) + if s.last().active {
                1int
            } else {
                0int
            }
        }
    }

    spec fn cursor_wf(self, r: int) -> bool {
        let c = self.cursors@[r];
        &&& c.at <= self.history@.len()
        &&& 0 <= c.start@ <= c.at as int
        &&& views_of(c.got@) == views_of(self.history@.subrange(c.start@, c.at as int))
    }

    pub closed spec fn wf(self) -> bool {
        &&& self.capacity >= 1
        &&& self.history@.len() <= u64::MAX
        &&& self.buf@.len() <= self.capacity
        &&& self.base + self.buf@.len() == self.history@.len()
        &&& self.buf@ == self.history@.subrange(self.base as int, self.history@.len() as int)
        &&& forall|r: int| 0 <= r < self.cursors@.len() ==> #[trigger] self.cursor_wf(r)
        &&& self.n_active == Self::count_active(self.cursors@)
    }

    /// How many receivers are currently subscribed (and not closed).
    pub closed spec fn active_receivers(self) -> int {
        Self::count_active(self.cursors@)
    }

    proof fn lemma_count_active_push(s: Seq<Cursor<T>>, c: Cursor<T>)
        ensures
            Self::count_active(s.push(c)) == Self::count_active(s) + if c.active {
                1int
            } else {
                0int
            },
    {
        assert(s.push(c).drop_last() == s);
        assert(s.push(c).last() == c);
    }

    proof fn lemma_count_active_update(s: Seq<Cursor<T>>, i: int, c: Cursor<T>)
        requires
            0 <= i < s.len(),
            c.active == s[i].active,
        ensures
            Self::count_active(s.update(i, c)) == Self::count_active(s),
        decreases s.len(),
    {
        let t = s.update(i, c);
        if i == s.len() - 1 {
            assert(t.drop_last() == s.drop_last());
        } else {
            assert(t.drop_last() == s.drop_last().update(i, c));
            assert(t.last() == s.last());
            Self::lemma_count_active_update(s.drop_last(), i, c);
        }
    }

    proof fn lemma_count_active_deactivate(s: Seq<Cursor<T>>, i: int, c: Cursor<T>)
        requires
            0 <= i < s.len(),
            s[i].active,
            !c.active,
        ensures
            Self::count_active(s.update(i, c)) == Self::count_active(s) - 1,
        decreases s.len(),
    {
        let t = s.update(i, c);
        if i == s.len() - 1 {
            assert(t.drop_last() == s.drop_last());
        } else {
            assert(t.drop_last() == s.drop_last().update(i, c));
            assert(t.last() == s.last());
            Self::lemma_count_active_deactivate(s.drop_last(), i, c);
        }
    }

    proof fn lemma_count_active_bound(s: Seq<Cursor<T>>)
        ensures
            0 <= Self::count_active(s) <= s.len(),
        decreases s.len(),
    {
        if s.len() > 0 {
            Self::lemma_count_active_bound(s.drop_last());
        }
    }

    /// An empty topic with the given backlog capacity.
    pub fn new(capacity: usize) -> (t: Self)
        requires
            capacity >= 1,
        ensures
            t.wf(),
            t.capacity() == capacity,
            t.history() == Seq::<T>::empty(),
            t.receivers() == 0,
            t.active_receivers() == 0,
            t.base_index() == 0,
    {
        let t = BroadcastTopic {
            capacity,
            buf: Vec::new(),
            base: 0,
            n_active: 0,
            history: Ghost(Seq::empty()),
            cursors: Vec::new(),
        };
        proof {
            assert(t.buf@ =~= t.history@.subrange(0, 0));
        }
        t
    }

    /// Publishes an event without blocking.  If the backlog is full, the
    /// oldest retained event is dropped first; subscribers that had not read
    /// it yet will observe a lag.  Publishing with no subscribers succeeds
    /// and the event simply ages out.
    pub fn try_broadcast(&mut self, v: T)
        requires
            old(self).wf(),
            old(self).history().len() < u64::MAX,
        ensures
            final(self).wf(),
            final(self).history() == old(self).history().push(v),
            final(self).capacity() == old(self).capacity(),
            final(self).base_index() == if old(self).history().len() - old(self).base_index()
                == old(self).capacity() {
                old(self).base_index() + 1
            } else {
                old(self).base_index()
            },
            final(self).receivers() == old(self).receivers(),
            final(self).active_receivers() == old(self).active_receivers(),
            forall|r: int|
                0 <= r < old(self).receivers() ==> (#[trigger] final(self).receiver_active(r))
                    == old(self).receiver_active(r),
            forall|r: int|
                0 <= r < old(self).receivers() ==> (#[trigger] final(self).cursor_at(r)) == old(self).cursor_at(r),
            forall|r: int|
                0 <= r < old(self).receivers() ==> (#[trigger] final(self).cursor_start(r)) == old(self).cursor_start(r),
            forall|r: int|
                0 <= r < old(self).receivers() ==> (#[trigger] final(self).cursor_got(r)) == old(self).cursor_got(r),
    {
        if self.buf.len() == self.capacity {
            self.buf.remove(0);
            self.base = self.base + 1;
        }
        self.buf.push(v);
        self.history = Ghost(self.history@.push(v));
        proof {
            assert(self.buf@ =~= self.history@.subrange(
                self.base as int,
                self.history@.len() as int,
            ));
            assert forall|r: int| 0 <= r < self.cursors@.len() implies #[trigger] self.cursor_wf(
                r,
            ) by {
                let c = self.cursors@[r];
                assert(old(self).cursor_wf(r));
                assert(self.history@.subrange(c.start@, c.at as int) == old(self).history@.subrange(c.start@, c.at as int));
            }
        }
    }

    /// Adds an independent receiver whose cursor starts at "now": it will
    /// observe exactly the events published after this call.
    pub fn new_receiver(&mut self) -> (rid: usize)
        requires
            old(self).wf(),
            old(self).receivers() < usize::MAX,
        ensures
            final(self).wf(),
            rid == old(self).receivers(),
            final(self).receivers() == old(self).receivers() + 1,
            final(self).history() == old(self).history(),
            final(self).capacity() == old(self).capacity(),
            final(self).base_index() == old(self).base_index(),
            final(self).active_receivers() == old(self).active_receivers() + 1,
            final(self).receiver_active(rid as int),
            final(self).cursor_at(rid as int) == old(self).history().len(),
            final(self).cursor_start(rid as int) == old(self).history().len(),
            final(self).cursor_got(rid as int) == Seq::<T>::empty(),
            forall|r: int|
                0 <= r < old(self).receivers() ==> (#[trigger] final(self).receiver_active(r))
                    == old(self).receiver_active(r),
            forall|r: int|
                0 <= r < old(self).receivers() ==> (#[trigger] final(self).cursor_at(r)) == old(self).cursor_at(r),
            forall|r: int|
                0 <= r < old(self).receivers() ==> (#[trigger] final(self).cursor_start(r)) == old(self).cursor_start(r),
            forall|r: int|
                0 <= r < old(self).receivers() ==> (#[trigger] final(self).cursor_got(r)) == old(self).cursor_got(r),
    {
        let rid = self.cursors.len();
        let c = Cursor::<T> {
            at: self.base + (self.buf.len() as u64),
            active: true,
            start: Ghost(self.history@.len() as int),
            got: Ghost(Seq::empty()),
        };
        proof {
            Self::lemma_count_active_push(self.cursors@, c);
            Self::lemma_count_active_bound(self.cursors@);
        }
        self.cursors.push(c);
        self.n_active = self.n_active + 1;
        assert(self.cursor_wf(rid as int)) by {
            assert(views_of(self.history@.subrange(
                self.history@.len() as int,
                self.history@.len() as int,
            )) =~= views_of(Seq::<T>::empty()));
            assert(views_of(Seq::<T>::empty()) =~= Seq::<T::V>::empty());
        }
        assert forall|r: int| 0 <= r < self.cursors@.len() implies #[trigger] self.cursor_wf(
            r,
        ) by {
            if r < rid {
                assert(old(self).cursor_wf(r));
            }
        }
        rid
    }

    /// Closes a receiver; later publishes are no longer counted against it.
    pub fn close_receiver(&mut self, rid: usize)
        requires
            old(self).wf(),
            rid < old(self).receivers(),
            old(self).receiver_active(rid as int),
        ensures
            final(self).wf(),
            final(self).history() == old(self).history(),
            final(self).capacity() == old(self).capacity(),
            final(self).base_index() == old(self).base_index(),
            final(self).receivers() == old(self).receivers(),
            final(self).active_receivers() == old(self).active_receivers() - 1,
            !final(self).receiver_active(rid as int),
            forall|r: int|
                0 <= r < old(self).receivers() && r != rid ==> (#[trigger] final(self).receiver_active(r)) == old(self).receiver_active(r),
            forall|r: int|
                0 <= r < old(self).receivers() && r != rid ==> (#[trigger] final(self).cursor_at(
                    r,
                )) == old(self).cursor_at(r),
            forall|r: int|
                0 <= r < old(self).receivers() && r != rid ==> (#[trigger] final(self).cursor_start(r)) == old(self).cursor_start(r),
            forall|r: int|
                0 <= r < old(self).receivers() && r != rid ==> (#[trigger] final(self).cursor_got(
                    r,
                )) == old(self).cursor_got(r),
    {
        let at = self.cursors[rid].at;
        let c = Cursor::<T> {
            at,
            active: false,
            start: Ghost(self.cursors@[rid as int].start@),
            got: Ghost(self.cursors@[rid as int].got@),
        };
        proof {
            Self::lemma_count_active_deactivate(self.cursors@, rid as int, c);
            Self::lemma_count_active_bound(self.cursors@.update(rid as int, c));
        }
        self.cursors.set(rid, c);
        self.n_active = self.n_active - 1;
        assert forall|r: int| 0 <= r < self.cursors@.len() implies #[trigger] self.cursor_wf(
            r,
        ) by {
            assert(old(self).cursor_wf(r));
        }
    }

    /// How many receivers are still subscribed.
    pub fn receiver_count(&self) -> (n: usize)
        requires
            self.wf(),
        ensures
            n == self.active_receivers(),
    {
        self.n_active
    }

    /// Receives the next event for the given receiver, without blocking.
    ///
    /// If the receiver's cursor fell off the retained window, `Lagged` is
    /// returned once and the cursor moves to the oldest retained event, so
    /// the receive after that succeeds from there (drop-oldest policy).
    pub fn recv(&mut self, rid: usize) -> (r: TopicRecv<T>)
        requires
            old(self).wf(),
            rid < old(self).receivers(),
            old(self).receiver_active(rid as int),
        ensures
            final(self).wf(),
            final(self).history() == old(self).history(),
            final(self).capacity() == old(self).capacity(),
            final(self).base_index() == old(self).base_index(),
            final(self).receivers() == old(self).receivers(),
            final(self).active_receivers() == old(self).active_receivers(),
            final(self).receiver_active(rid as int),
            forall|q: int|
                0 <= q < old(self).receivers() && q != rid ==> (#[trigger] final(self).receiver_active(q)) == old(self).receiver_active(q),
            forall|q: int|
                0 <= q < old(self).receivers() && q != rid ==> (#[trigger] final(self).cursor_at(
                    q,
                )) == old(self).cursor_at(q),
            forall|q: int|
                0 <= q < old(self).receivers() && q != rid ==> (#[trigger] final(self).cursor_start(q)) == old(self).cursor_start(q),
            forall|q: int|
                0 <= q < old(self).receivers() && q != rid ==> (#[trigger] final(self).cursor_got(
                    q,
                )) == old(self).cursor_got(q),
            match r {
                TopicRecv::Item(v) => {
                    &&& old(self).base_index() <= old(self).cursor_at(rid as int) < old(self).history().len()
                    &&& v.deep_view() == old(self).history()[old(self).cursor_at(
                        rid as int,
                    )].deep_view()
                    &&& final(self).cursor_at(rid as int) == old(self).cursor_at(rid as int) + 1
                    &&& final(self).cursor_start(rid as int) == old(self).cursor_start(rid as int)
                    &&& final(self).cursor_got(rid as int) == old(self).cursor_got(
                        rid as int,
                    ).push(v)
                },
                TopicRecv::Lagged => {
                    &&& old(self).cursor_at(rid as int) < old(self).base_index()
                    &&& final(self).cursor_at(rid as int) == old(self).base_index()
                    &&& final(self).cursor_start(rid as int) == old(self).base_index()
                    &&& final(self).cursor_got(rid as int) == Seq::<T>::empty()
                },
                TopicRecv::Pending => {
                    &&& old(self).cursor_at(rid as int) == old(self).history().len()
                    &&& final(self).cursor_at(rid as int) == old(self).cursor_at(rid as int)
                    &&& final(self).cursor_start(rid as int) == old(self).cursor_start(rid as int)
                    &&& final(self).cursor_got(rid as int) == old(self).cursor_got(rid as int)
                },
            },
    {
        let at = self.cursors[rid].at;
        if at < self.base {
            let c = Cursor::<T> {
                at: self.base,
                active: true,
                start: Ghost(self.base as int),
                got: Ghost(Seq::empty()),
            };
            proof {
                Self::lemma_count_active_update(self.cursors@, rid as int, c);
            }
            self.cursors.set(rid, c);
            assert(self.cursor_wf(rid as int)) by {
                assert(views_of(self.history@.subrange(self.base as int, self.base as int))
                    =~= views_of(Seq::<T>::empty()));
                assert(views_of(Seq::<T>::empty()) =~= Seq::<T::V>::empty());
            }
            assert forall|r: int| 0 <= r < self.cursors@.len() implies #[trigger] self.cursor_wf(
                r,
            ) by {
                if r != rid {
                    assert(old(self).cursor_wf(r));
                }
            }
            TopicRecv::Lagged
        } else if at == self.base + (self.buf.len() as u64) {
            TopicRecv::Pending
        } else {
            assert(old(self).cursor_wf(rid as int));
            let i = (at - self.base) as usize;
            let v = self.buf[i].dup();
            let c = Cursor::<T> {
                at: at + 1,
                active: true,
                start: Ghost(self.cursors@[rid as int].start@),
                got: Ghost(self.cursors@[rid as int].got@.push(v)),
            };
            proof {
                Self::lemma_count_active_update(self.cursors@, rid as int, c);
            }
            self.cursors.set(rid, c);
            proof {
                let h = self.history@;
                let start = c.start@;
                assert(h[at as int] == self.buf@[i as int]);
                assert(views_of(h.subrange(start, at + 1)) =~= views_of(
                    h.subrange(start, at as int),
                ).push(h[at as int].deep_view()));
                assert(views_of(c.got@) =~= views_of(old(self).cursor_got(rid as int)).push(
                    v.deep_view(),
                ));
            }
            assert forall|r: int| 0 <= r < self.cursors@.len() implies #[trigger] self.cursor_wf(
                r,
            ) by {
                if r != rid {
                    assert(old(self).cursor_wf(r));
                } else {
                    assert(views_of(self.cursors@[r].got@) == views_of(
                        self.history@.subrange(self.cursors@[r].start@, self.cursors@[r].at as int),
                    ));
                }
            }
            TopicRecv::Item(v)
        }
    }
}

/// Law: a broadcast subscriber observes, oldest first and exactly once
/// each, precisely the events published since its cursor start (the point
/// of subscription, or the oldest retained event after a lag).  Nothing is
/// duplicated, reordered, or silently skipped.
pub proof fn lemma_broadcast_subscriber_in_order<T: Dup>(t: BroadcastTopic<T>, rid: int)
    requires
        t.wf(),
        0 <= rid < t.receivers(),
    ensures
        views_of(t.cursor_got(rid)) == views_of(
            t.history().subrange(t.cursor_start(rid), t.cursor_at(rid)),
        ),
        t.cursor_got(rid).len() == t.cursor_at(rid) - t.cursor_start(rid),
{
    assert(t.cursor_wf(rid));
    assert(views_of(t.cursor_got(rid)).len() == t.cursor_got(rid).len());
}

/// Law: at most `capacity` events are ever retained, so a subscriber can
/// only lag once it stands more than `capacity` publishes behind; after the
/// lag it resumes at the oldest retained event.
pub proof fn lemma_backlog_is_bounded<T: Dup>(t: BroadcastTopic<T>)
    requires
        t.wf(),
    ensures
        t.capacity() >= 1,
        0 <= t.base_index() <= t.history().len(),
        t.history().len() - t.base_index() <= t.capacity(),
{
}

/// A receiver's cursor never runs ahead of the published history, and the
/// point it has observed everything from never runs ahead of the cursor.
pub proof fn lemma_cursor_bounds<T: Dup>(t: BroadcastTopic<T>, rid: int)
    requires
        t.wf(),
        0 <= rid < t.receivers(),
    ensures
        0 <= t.cursor_start(rid) <= t.cursor_at(rid) <= t.history().len(),
        0 <= t.base_index() <= t.history().len(),
{
    assert(t.cursor_wf(rid));
}

} // verus!
