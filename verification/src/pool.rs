//! The transaction pool model: a first-in, first-out queue of raw
//! transactions, plus the registry of installed ready-listener
//! subscriptions that turn pool insertions into block-production triggers.

use vstd::prelude::*;

verus! {

/// Queue of raw transactions awaiting inclusion in a block, with the
/// number of installed "transactions are ready" subscriptions.
pub struct Pool {
    pending: Vec<String>,
    ready_listeners: usize,
}

impl Pool {
    /// The queued raw transactions, oldest first.
    pub closed spec fn pending_view(&self) -> Seq<String> {
        self.pending@
    }

    /// How many ready-listener subscriptions have been installed.
    pub closed spec fn listener_count(&self) -> usize {
        self.ready_listeners
    }

    /// An empty pool with no subscriptions.
    pub fn new() -> (p: Pool)
        ensures
            p.pending_view() == Seq::<String>::empty(),
            p.listener_count() == 0,
    {
        Pool { pending: Vec::new(), ready_listeners: 0 }
    }

    /// Install a ready-listener subscription; returns its identifier.
    /// Listeners installed earlier keep their identifiers.
    pub fn add_ready_listener(&mut self) -> (id: usize)
        requires
            old(self).listener_count() < usize::MAX,
        ensures
            final(self).pending_view() == old(self).pending_view(),
            final(self).listener_count() == old(self).listener_count() + 1,
            id == old(self).listener_count(),
    {
        let id = self.ready_listeners;
        self.ready_listeners = self.ready_listeners + 1;
        id
    }

    /// Queue one raw transaction behind all already pending ones.
    pub fn push_pending(&mut self, tx: String)
        ensures
            final(self).pending_view() == old(self).pending_view().push(tx),
            final(self).listener_count() == old(self).listener_count(),
    {
        self.pending.push(tx);
    }

    /// Number of installed ready-listener subscriptions.
    pub fn listener_total(&self) -> (n: usize)
        ensures
            n == self.listener_count(),
    {
        self.ready_listeners
    }

    /// Number of pending transactions.
    pub fn pending_len(&self) -> (n: usize)
        ensures
            n == self.pending_view().len(),
    {
        self.pending.len()
    }

    /// Remove and return the oldest pending transactions, at most `n` of
    /// them, in their queue order.
    pub fn take_up_to(&mut self, n: usize) -> (batch: Vec<String>)
        ensures
            final(self).listener_count() == old(self).listener_count(),
            batch@ == old(self).pending_view().take(
                if n <= old(self).pending_view().len() {
                    n as int
                } else {
                    old(self).pending_view().len() as int
                },
            ),
            final(self).pending_view() == old(self).pending_view().skip(
                if n <= old(self).pending_view().len() {
                    n as int
                } else {
                    old(self).pending_view().len() as int
                },
            ),
    {
        let k = if n <= self.pending.len() {
            n
        } else {
            self.pending.len()
        };
        let ghost orig: Seq<String> = self.pending@;
        let mut batch: Vec<String> = Vec::new();
        let mut i: usize = 0;
        while i < k
            invariant
                i <= k,
                k <= orig.len(),
                batch@ == orig.take(i as int),
                self.pending@ == orig.skip(i as int),
                self.ready_listeners == old(self).listener_count(),
            decreases k - i,
        {
            let tx = self.pending.remove(0);
            proof {
                assert(orig.skip(i as int).remove(0) =~= orig.skip(i + 1));
                assert(orig.skip(i as int)[0] == orig[i as int]);
                assert(orig.take(i as int).push(orig[i as int]) =~= orig.take(i + 1));
            }
            batch.push(tx);
            i = i + 1;
        }
        batch
    }
}

} // verus!
