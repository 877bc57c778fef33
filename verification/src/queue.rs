use vstd::prelude::*;
use std::collections::VecDeque;
use crate::protocol::Taken;

verus! {

/// One of the two notification queues. Each entry stands for one service and
/// holds what asking that service gives: `None` where the question fails.
/// Entries leave in the order in which they came, each once.
pub struct NotificationQueue<T> {
    pending: VecDeque<Option<T>>,
    taken: Ghost<Seq<Option<T>>>,
}

impl<T> NotificationQueue<T> {
    /// Every entry that the queue was ever given, oldest first.
    pub closed spec fn history(&self) -> Seq<Option<T>> {
        self.taken@ + self.pending@
    }

    /// How many entries have been taken off.
    pub closed spec fn taken(&self) -> nat {
        self.taken@.len()
    }

    /// The entries that are still to be taken.
    pub open spec fn pending(&self) -> Seq<Option<T>> {
        self.history().skip(self.taken() as int)
    }

    /// No more entries were taken than were given.
    pub proof fn lemma_taken_in_range(&self)
        ensures
            self.taken() <= self.history().len(),
    {
    }

    proof fn lemma_pending(&self)
        ensures
            self.pending() == self.pending@,
    {
        assert(self.pending() =~= self.pending@);
    }

    /// A queue that was never given anything.
    pub fn new() -> (q: Self)
        ensures
            q.history() == Seq::<Option<T>>::empty(),
            q.taken() == 0,
    {
        let q = NotificationQueue { pending: VecDeque::new(), taken: Ghost(Seq::empty()) };
        assert(q.history() =~= Seq::<Option<T>>::empty());
        q
    }

    /// A queue that holds `entries`, none of them taken.
    pub fn holding(entries: Vec<Option<T>>) -> (q: Self)
        ensures
            q.history() == entries@,
            q.taken() == 0,
    {
        let mut entries = entries;
        let mut q = NotificationQueue { pending: VecDeque::new(), taken: Ghost(Seq::empty()) };
        let ghost all = entries@;
        // The entries are moved over from the last to the first.
        while entries.len() > 0
            invariant
                q.taken@ == Seq::<Option<T>>::empty(),
                entries@ + q.pending@ == all,
            decreases entries.len(),
        {
            let ghost before = entries@;
            let ghost moved = q.pending@;
            let last = entries.pop();
            match last {
                Some(entry) => {
                    q.pending.push_front(entry);
                    assert(entries@ + q.pending@ =~= before + moved);
                },
                None => {},
            }
        }
        assert(q.history() =~= all);
        q
    }

    /// Adds an entry at the end.
    pub fn enqueue(&mut self, outcome: Option<T>)
        ensures
            final(self).history() == old(self).history().push(outcome),
            final(self).taken() == old(self).taken(),
    {
        self.pending.push_back(outcome);
        assert(self.history() =~= old(self).history().push(outcome));
    }

    /// Takes the oldest pending entry off, if there is one.
    pub fn take(&mut self) -> (t: Taken<T>)
        ensures
            final(self).history() == old(self).history(),
            old(self).pending().len() == 0 ==> t is Empty && final(self).taken() == old(
                self,
            ).taken(),
            old(self).pending().len() > 0 ==> final(self).taken() == old(self).taken() + 1 && (
            match old(self).pending()[0] {
                Some(v) => t == Taken::Got(v),
                None => t is Failed,
            }),
    {
        proof {
            self.lemma_pending();
        }
        match self.pending.pop_front() {
            Some(entry) => {
                self.taken = Ghost(self.taken@.push(entry));
                assert(self.history() =~= old(self).history());
                match entry {
                    Some(v) => Taken::Got(v),
                    None => Taken::Failed,
                }
            },
            None => Taken::Empty,
        }
    }

    /// Takes every pending entry off and drops it. Returns how many there
    /// were.
    pub fn drain(&mut self) -> (dropped: usize)
        ensures
            final(self).history() == old(self).history(),
            final(self).taken() == old(self).history().len(),
            dropped == old(self).pending().len(),
    {
        proof {
            self.lemma_pending();
        }
        let dropped = self.pending.len();
        self.taken = Ghost(self.taken@ + self.pending@);
        self.pending.clear();
        assert(self.history() =~= old(self).history());
        dropped
    }

    /// The number of entries that are still to be taken.
    pub fn pending_len(&self) -> (n: usize)
        ensures
            n == self.pending().len(),
    {
        proof {
            self.lemma_pending();
        }
        self.pending.len()
    }
}

} // verus!
