//! One-shot completion slots.
//!
//! Each asynchronous request registers interest under a correlation key (the
//! identity of the entity the request concerns) and receives a fresh ticket;
//! the matching delegate callback later consumes the slot and fulfils
//! exactly that ticket.  At most one slot is live per key: registering again
//! for a pending key supersedes the earlier slot, whose waiter is told it
//! was canceled rather than left to hang.  A callback for a key with no slot
//! is a no-op (the requester gave up, harmlessly).

use vstd::prelude::*;

use crate::assoc::{assoc_keys_unique, assoc_map, lemma_assoc_props, lemma_assoc_push, lemma_assoc_remove, lemma_assoc_update};

verus! {

/// The outcome of registering interest under a key.
#[derive(Clone, Copy, Debug, PartialEq, Eq, Structural)]
pub struct Registration {
    /// The fresh ticket the new waiter awaits.
    pub ticket: u64,
    /// The ticket of an earlier registration for the same key that this one
    /// replaced; that waiter observes a canceled error, not a hang.
    pub superseded: Option<u64>,
}

/// The pending one-shot slots of one event category: a map from correlation
/// key to the ticket of the single waiter.
pub struct PendingSlots {
    entries: Vec<(u128, u64)>,
    next_ticket: u64,
}

impl PendingSlots {
    /// The pending slots as a map from key to waiting ticket.
    pub closed spec fn slots(self) -> Map<u128, u64> {
        assoc_map(self.entries@)
    }

    /// The next ticket to be issued; every pending ticket is below it.
    pub closed spec fn next_ticket(self) -> int {
        self.next_ticket as int
    }

    pub closed spec fn wf(self) -> bool {
        &&& assoc_keys_unique(self.entries@)
        &&& forall|i: int|
            0 <= i < self.entries@.len() ==> (#[trigger] self.entries@[i]).1 < self.next_ticket
    }

    /// An empty category: no slot is pending and no ticket was issued.
    pub fn new() -> (r: Self)
        ensures
            r.wf(),
            r.slots() == Map::<u128, u64>::empty(),
            r.next_ticket() == 0,
    {
        PendingSlots { entries: Vec::new(), next_ticket: 0 }
    }

    /// Finds the position of `key`, scanning left to right.
    fn find(&self, key: u128) -> (r: Option<usize>)
        ensures
            match r {
                Some(i) => i < self.entries@.len() && self.entries@[i as int].0 == key,
                None => forall|j: int|
                    0 <= j < self.entries@.len() ==> (#[trigger] self.entries@[j]).0 != key,
            },
    {
        let n = self.entries.len();
        let mut i: usize = 0;
        while i < n
            invariant
                n == self.entries@.len(),
                i <= n,
                forall|j: int| 0 <= j < i ==> (#[trigger] self.entries@[j]).0 != key,
            decreases n - i,
        {
            if self.entries[i].0 == key {
                return Some(i);
            }
            i = i + 1;
        }
        None
    }

    /// Registers interest under `key`, issuing a fresh ticket.  An earlier
    /// pending slot for the same key is replaced and its ticket reported as
    /// superseded, so that its waiter can be told it was canceled.
    pub fn register(&mut self, key: u128) -> (r: Registration)
        requires
            old(self).wf(),
            old(self).next_ticket() < u64::MAX,
        ensures
            final(self).wf(),
            r.ticket == old(self).next_ticket(),
            final(self).next_ticket() == old(self).next_ticket() + 1,
            final(self).slots() == old(self).slots().insert(key, r.ticket),
            r.superseded == if old(self).slots().contains_key(key) {
                Some(old(self).slots()[key])
            } else {
                None::<u64>
            },
            r.superseded matches Some(t) ==> t != r.ticket,
    {
        proof {
            lemma_assoc_props(self.entries@);
        }
        let ticket = self.next_ticket;
        self.next_ticket = ticket + 1;
        match self.find(key) {
            Some(i) => {
                let prev = self.entries[i].1;
                proof {
                    lemma_assoc_update(self.entries@, i as int, ticket);
                }
                self.entries.set(i, (key, ticket));
                assert(forall|j: int|
                    0 <= j < self.entries@.len() ==> (#[trigger] self.entries@[j]).1
                        < self.next_ticket);
                Registration { ticket, superseded: Some(prev) }
            },
            None => {
                proof {
                    lemma_assoc_push(self.entries@, key, ticket);
                }
                assert(!old(self).slots().contains_key(key));
                self.entries.push((key, ticket));
                assert(assoc_keys_unique(self.entries@)) by {
                    assert(forall|j: int|
                        0 <= j < self.entries@.len() - 1 ==> (#[trigger] self.entries@[j]).0
                            != key);
                }
                assert(forall|j: int|
                    0 <= j < self.entries@.len() ==> (#[trigger] self.entries@[j]).1
                        < self.next_ticket);
                Registration { ticket, superseded: None }
            },
        }
    }

    /// Consumes the pending slot for `key`, if one exists, returning the
    /// ticket to fulfil.  With no pending slot this is a no-op: the caller
    /// gave up or never registered, which is not an error.
    pub fn complete(&mut self, key: u128) -> (r: Option<u64>)
        requires
            old(self).wf(),
        ensures
            final(self).wf(),
            final(self).next_ticket() == old(self).next_ticket(),
            match r {
                Some(t) => {
                    &&& old(self).slots().contains_key(key)
                    &&& t == old(self).slots()[key]
                    &&& final(self).slots() == old(self).slots().remove(key)
                },
                None => {
                    &&& !old(self).slots().contains_key(key)
                    &&& final(self).slots() == old(self).slots()
                },
            },
    {
        proof {
            lemma_assoc_props(self.entries@);
        }
        match self.find(key) {
            Some(i) => {
                let t = self.entries[i].1;
                proof {
                    lemma_assoc_remove(self.entries@, i as int);
                }
                self.entries.remove(i);
                assert(forall|j: int|
                    0 <= j < self.entries@.len() ==> (#[trigger] self.entries@[j]).1
                        < self.next_ticket);
                Some(t)
            },
            None => None,
        }
    }

    /// Whether a slot is pending for `key`.
    pub fn is_pending(&self, key: u128) -> (r: bool)
        requires
            self.wf(),
        ensures
            r == self.slots().contains_key(key),
    {
        proof {
            lemma_assoc_props(self.entries@);
        }
        match self.find(key) {
            Some(_) => true,
            None => false,
        }
    }
}

/// Law: when two registrations race on one key, the pending slot holds only
/// the second ticket; the first ticket is the superseded one and no later
/// completion on that key can ever fulfil it.
pub proof fn lemma_second_registration_supersedes(m: Map<u128, u64>, t1: u64, t2: u64, k: u128)
    requires
        t1 != t2,
    ensures
        m.insert(k, t1).contains_key(k),
        m.insert(k, t1)[k] == t1,
        m.insert(k, t1).insert(k, t2)[k] == t2,
        m.insert(k, t1).insert(k, t2)[k] != t1,
{
}

} // verus!
