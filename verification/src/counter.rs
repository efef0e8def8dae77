//! Connection counter: a shared monotonically increasing source of
//! connection identifiers, passed explicitly to the accept loop. Each
//! identifier is handed out once and never reused. The indivisibility of the
//! increment under concurrent access is the embedding program's concern (an
//! atomic or a lock around `next_id`); this type carries the arithmetic
//! contract that any such embedding must preserve.

use vstd::prelude::*;

verus! {

/// Issues consecutive identifiers starting at a fixed seed. The ghost
/// `issued` sequence records every identifier handed out so far, in order.
pub struct ConnectionCounter {
    pub next: usize,
    pub seed: Ghost<usize>,
    pub issued: Ghost<Seq<usize>>,
}

impl ConnectionCounter {
    /// The identifiers issued so far are exactly seed, seed + 1, ... in
    /// order, and `next` is the one to be issued next.
    pub open spec fn inv(&self) -> bool {
        &&& self.next == self.seed@ + self.issued@.len()
        &&& forall|i: int|
            0 <= i < self.issued@.len() ==> self.issued@[i] == self.seed@ + i
    }

    /// A fresh counter whose first identifier will be `seed`.
    pub fn new(seed: usize) -> (r: ConnectionCounter)
        ensures
            r.inv(),
            r.seed@ == seed,
            r.issued@ =~= Seq::<usize>::empty(),
            r.next == seed,
    {
        ConnectionCounter { next: seed, seed: Ghost(seed), issued: Ghost(Seq::empty()) }
    }

    /// Hands out the next identifier and advances. Identifiers are assigned
    /// once: the one returned is recorded and never produced again.
    pub fn next_id(&mut self) -> (id: usize)
        requires
            old(self).inv(),
            old(self).next < usize::MAX,
        ensures
            final(self).inv(),
            id == old(self).next,
            final(self).seed@ == old(self).seed@,
            final(self).next == old(self).next + 1,
            final(self).issued@ =~= old(self).issued@.push(id),
    {
        let id = self.next;
        self.next = self.next + 1;
        proof {
            self.issued@ = self.issued@.push(id);
        }
        id
    }
}

/// Law: for a counter seeded with 1 that has issued N identifiers, the set of
/// issued identifiers is exactly {1, 2, ..., N} - no duplicates, no gaps -
/// whatever the interleaving of the connections that drew them.
pub proof fn lemma_counter_ids_exact(c: ConnectionCounter)
    requires
        c.inv(),
        c.seed@ == 1,
    ensures
        forall|id: usize| c.issued@.contains(id) <==> 1 <= id <= c.issued@.len(),
        forall|i: int, j: int|
            0 <= i < j < c.issued@.len() ==> c.issued@[i] != c.issued@[j],
{
    assert forall|id: usize| c.issued@.contains(id) implies 1 <= id <= c.issued@.len() by {
        let i = choose|i: int| 0 <= i < c.issued@.len() && c.issued@[i] == id;
        assert(c.issued@[i] == 1 + i);
    }
    assert forall|id: usize| 1 <= id <= c.issued@.len() implies c.issued@.contains(id) by {
        assert(c.issued@[id - 1] == id);
    }
}

} // verus!
