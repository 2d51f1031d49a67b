//! A FIFO queue meant to stand behind a mutual-exclusion lock and a
//! condition signal.
//!
//! `BlockingQueue` is the lock-protected state of a producer/consumer
//! session. Producers call `push`; consumers call `try_pop` in the classic
//! re-check loop: while it answers `WouldBlock`, the consumer suspends on
//! the condition signal and tries again on wake-up, so a wake that finds the
//! queue already emptied (a spurious wake, or a race with another consumer)
//! harmlessly puts the consumer back to sleep. The embedding that owns the
//! lock drives that loop; nothing here suspends by itself.
//!
//! The queue keeps, as ghost state, the sequence of items it has delivered.
//! Together with the pending items this determines the whole push history
//! (`pushed`), which is how the laws below are stated: nothing pushed is
//! ever lost or delivered twice, and delivery order is push order.
//!
//! The base design blocks a consumer forever when no producer ever pushes
//! again, so the queue carries an explicit termination signal: `close`.
//! After `close`, a drained queue answers `Closed` instead of `WouldBlock`,
//! telling the consumer to stop rather than suspend (the embedding wakes all
//! waiting consumers when it closes the queue). Producers must not push
//! after closing; `push` requires the queue to be open, and the embedding
//! checks `is_closed` before pushing.

use std::collections::VecDeque;
use vstd::prelude::*;
use vstd::seq_lib::lemma_multiset_commutative;

verus! {

/// What one attempt to pop observed: an item, or the reason there was none.
#[derive(Debug, PartialEq, Eq)]
pub enum PopAttempt<T> {
    /// The head item, removed from the queue.
    Item(T),
    /// The queue is empty but still open: the consumer should suspend on the
    /// condition signal and re-check after the next wake-up.
    WouldBlock,
    /// The queue is empty and closed: no item will ever arrive, so the
    /// consumer should stop instead of suspending.
    Closed,
}

/// The lock-protected state of a producer/consumer queue: the pending items
/// in FIFO order, the termination flag, and (as ghost state) the items
/// already delivered to consumers.
pub struct BlockingQueue<T> {
    items: VecDeque<T>,
    closed: bool,
    taken: Ghost<Seq<T>>,
}

impl<T> BlockingQueue<T> {
    /// The items pushed but not yet delivered, head first.
    pub closed spec fn pending(self) -> Seq<T> {
        self.items@
    }

    /// The items already delivered to consumers, in delivery order.
    pub closed spec fn delivered(self) -> Seq<T> {
        self.taken@
    }

    /// The whole push history: everything ever pushed, in push order. Every
    /// pushed item is either already delivered or still pending.
    pub open spec fn pushed(self) -> Seq<T> {
        self.delivered() + self.pending()
    }

    /// Whether the queue has been closed.
    pub closed spec fn spec_is_closed(&self) -> bool {
        self.closed
    }

    /// A fresh queue: open, nothing pushed, nothing delivered.
    pub fn new() -> (q: Self)
        ensures
            q.pending() == Seq::<T>::empty(),
            q.delivered() == Seq::<T>::empty(),
            !q.spec_is_closed(),
    {
        BlockingQueue { items: VecDeque::new(), closed: false, taken: Ghost(Seq::empty()) }
    }

    /// How many items are pending.
    pub fn len(&self) -> (n: usize)
        ensures
            n == self.pending().len(),
    {
        self.items.len()
    }

    /// Whether no item is pending.
    pub fn is_empty(&self) -> (b: bool)
        ensures
            b == (self.pending().len() == 0),
    {
        self.items.len() == 0
    }

    /// Whether the queue has been closed.
    #[verifier::when_used_as_spec(spec_is_closed)]
    pub fn is_closed(&self) -> (b: bool)
        ensures
            b == self.spec_is_closed(),
    {
        self.closed
    }

    /// Appends `item` at the tail. Never blocks and never fails: capacity is
    /// logically unbounded. The caller holds the lock and, after releasing
    /// it, signals one waiting consumer. Pushing a closed queue is a caller
    /// error; the embedding checks `is_closed` first.
    pub fn push(&mut self, item: T)
        requires
            !old(self).spec_is_closed(),
        ensures
            final(self).pending() == old(self).pending().push(item),
            final(self).delivered() == old(self).delivered(),
            final(self).pushed() == old(self).pushed().push(item),
            !final(self).spec_is_closed(),
    {
        self.items.push_back(item);
        proof {
            assert(self.delivered() + self.pending() =~= (self.delivered()
                + old(self).pending()).push(item));
        }
    }

    /// Pushes a whole batch, in order, as one lock holder would.
    pub fn push_all(&mut self, batch: Vec<T>)
        requires
            !old(self).spec_is_closed(),
        ensures
            final(self).pending() == old(self).pending() + batch@,
            final(self).delivered() == old(self).delivered(),
            !final(self).spec_is_closed(),
    {
        let mut batch = batch;
        let ghost all: Seq<T> = batch@;
        let ghost start: Seq<T> = old(self).pending();
        proof {
            assert(batch.len() == all.len());
        }
        let mut i: usize = 0;
        while batch.len() > 0
            invariant
                all.len() <= usize::MAX,
                i + batch@.len() == all.len(),
                batch@ == all.skip(i as int),
                self.pending() == start + all.take(i as int),
                self.delivered() == old(self).delivered(),
                !self.spec_is_closed(),
            decreases batch@.len(),
        {
            let item = batch.remove(0);
            proof {
                assert(all.skip(i as int).drop_first() =~= all.skip(i + 1));
                assert(item == all[i as int]);
                assert((start + all.take(i as int)).push(all[i as int]) =~= start + all.take(
                    i + 1,
                ));
            }
            self.push(item);
            i = i + 1;
        }
        proof {
            assert(all.skip(i as int).len() == 0);
            assert(start + all.take(i as int) =~= start + all);
        }
    }

    /// One attempt of the consumer's re-check loop, made while holding the
    /// lock. Returns the head item when one is pending (FIFO: the oldest
    /// pushed item not yet delivered), `Closed` when the queue is drained
    /// and closed, and `WouldBlock` when it is merely empty, in which case
    /// the caller suspends on the condition signal and re-checks on wake-up.
    pub fn try_pop(&mut self) -> (r: PopAttempt<T>)
        ensures
            old(self).pending().len() > 0 ==> {
                &&& r == PopAttempt::Item(old(self).pending()[0])
                &&& final(self).pending() == old(self).pending().drop_first()
                &&& final(self).delivered() == old(self).delivered().push(
                    old(self).pending()[0],
                )
            },
            old(self).pending().len() == 0 ==> {
                &&& final(self).pending() == old(self).pending()
                &&& final(self).delivered() == old(self).delivered()
            },
            old(self).pending().len() == 0 && old(self).spec_is_closed() ==> r == (
            PopAttempt::<T>::Closed),
            old(self).pending().len() == 0 && !old(self).spec_is_closed() ==> r == (
            PopAttempt::<T>::WouldBlock),
            final(self).pushed() == old(self).pushed(),
            final(self).spec_is_closed() == old(self).spec_is_closed(),
    {
        match self.items.pop_front() {
            Some(item) => {
                proof {
                    self.taken@ = self.taken@.push(item);
                    assert(old(self).pending().drop_first() =~= self.items@);
                    assert(self.delivered() + self.pending() =~= old(self).delivered() + old(
                        self,
                    ).pending());
                }
                PopAttempt::Item(item)
            },
            None => {
                if self.closed {
                    PopAttempt::Closed
                } else {
                    PopAttempt::WouldBlock
                }
            },
        }
    }

    /// Removes and returns every pending item, oldest first, delivering them
    /// all; what one consumer draining the queue under the lock observes.
    pub fn drain(&mut self) -> (out: Vec<T>)
        ensures
            out@ == old(self).pending(),
            final(self).pending().len() == 0,
            final(self).delivered() == old(self).delivered() + old(self).pending(),
            final(self).spec_is_closed() == old(self).spec_is_closed(),
    {
        let mut out: Vec<T> = Vec::new();
        let ghost init_pending: Seq<T> = self.pending();
        let ghost init_delivered: Seq<T> = self.delivered();
        let ghost was_closed: bool = self.spec_is_closed();
        while self.len() > 0
            invariant
                out@ + self.pending() == init_pending,
                self.delivered() == init_delivered + out@,
                self.spec_is_closed() == was_closed,
            decreases self.pending().len(),
        {
            match self.try_pop() {
                PopAttempt::Item(item) => {
                    out.push(item);
                    proof {
                        assert(out@ + self.pending() =~= init_pending);
                        assert(init_delivered + out@ =~= (init_delivered
                            + out@.drop_last()).push(item));
                    }
                },
                PopAttempt::WouldBlock => {},
                PopAttempt::Closed => {},
            }
        }
        proof {
            assert(out@ =~= out@ + self.pending());
        }
        out
    }

    /// Closes the queue: the termination signal of the session. Pending
    /// items can still be drained; once the queue is empty, `try_pop`
    /// answers `Closed` rather than `WouldBlock`. The embedding wakes all
    /// waiting consumers right after closing, so none stays suspended.
    pub fn close(&mut self)
        ensures
            final(self).pending() == old(self).pending(),
            final(self).delivered() == old(self).delivered(),
            final(self).spec_is_closed(),
    {
        self.closed = true;
    }

    /// No loss and no duplication: in every reachable state, the multiset of
    /// items ever pushed is exactly the multiset delivered so far joined
    /// with the multiset still pending. Once every pushed item has been
    /// popped, the delivered multiset equals the pushed multiset.
    pub proof fn lemma_conservation(self)
        ensures
            self.pushed().to_multiset() == self.delivered().to_multiset().add(
                self.pending().to_multiset(),
            ),
    {
        lemma_multiset_commutative(self.delivered(), self.pending());
    }

    /// Exactly-once delivery, item by item: however many consumers race on
    /// the queue, each pushed occurrence of a value is delivered at most
    /// once (and exactly once when it is no longer pending).
    pub proof fn lemma_exactly_once(self, x: T)
        ensures
            self.delivered().to_multiset().count(x) + self.pending().to_multiset().count(x)
                == self.pushed().to_multiset().count(x),
    {
        self.lemma_conservation();
    }

    /// FIFO: what has been delivered is a prefix of the push history, in
    /// push order, and what is pending is the rest of it.
    pub proof fn lemma_fifo_prefix(self)
        ensures
            self.delivered() == self.pushed().take(self.delivered().len() as int),
            self.pending() == self.pushed().skip(self.delivered().len() as int),
    {
        assert(self.delivered() =~= self.pushed().take(self.delivered().len() as int));
        assert(self.pending() =~= self.pushed().skip(self.delivered().len() as int));
    }

    /// A drained queue has delivered its whole push history, literally and
    /// in order: with one producer and one consumer, the sequence of popped
    /// items equals the sequence of pushed items.
    pub proof fn lemma_drained_delivers_all(self)
        requires
            self.pending().len() == 0,
        ensures
            self.delivered() == self.pushed(),
    {
        assert(self.delivered() =~= self.pushed());
    }
}

} // verus!
