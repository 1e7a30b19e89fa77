//! A free list of released native semaphore handles awaiting reuse.
use vstd::multiset::Multiset;
use vstd::prelude::*;

verus! {

/// Released native handles of one kind, kept by a device for reuse. Which handle a
/// `take` hands out is not part of the contract: the pool is a bag.
#[derive(Debug)]
pub struct SemaphorePool {
    handles: Vec<u64>,
}

impl View for SemaphorePool {
    type V = Multiset<u64>;

    closed spec fn view(&self) -> Multiset<u64> {
        self.handles@.to_multiset()
    }
}

impl SemaphorePool {
    /// An empty pool.
    pub fn new() -> (r: SemaphorePool)
        ensures
            r@ =~= Multiset::empty(),
    {
        proof {
            broadcast use vstd::seq_lib::group_to_multiset_ensures;
        }
        SemaphorePool { handles: Vec::new() }
    }

    /// Removes one handle from the pool and hands it out, if the pool holds any.
    pub fn take(&mut self) -> (r: Option<u64>)
        ensures
            old(self)@.len() == 0 <==> r is None,
            r is None ==> final(self)@ == old(self)@,
            r matches Some(h) ==> old(self)@.contains(h) && final(self)@ == old(self)@.remove(h),
    {
        proof {
            broadcast use vstd::seq_lib::group_to_multiset_ensures;
        }
        let ghost before = self.handles@;
        let r = self.handles.pop();
        proof {
            if before.len() > 0 {
                assert(before.remove(before.len() - 1) =~= before.drop_last());
                assert(before.to_multiset().contains(before.last()));
            }
        }
        r
    }

    /// Puts a handle back into the pool.
    pub fn give(&mut self, handle: u64)
        ensures
            final(self)@ == old(self)@.insert(handle),
    {
        proof {
            broadcast use vstd::seq_lib::group_to_multiset_ensures;
        }
        self.handles.push(handle);
    }

    /// The number of handles in the pool.
    pub fn len(&self) -> (r: usize)
        ensures
            r == self@.len(),
    {
        proof {
            broadcast use vstd::seq_lib::group_to_multiset_ensures;
        }
        self.handles.len()
    }

    /// Whether the pool holds no handle.
    pub fn is_empty(&self) -> (r: bool)
        ensures
            r <==> self@.len() == 0,
    {
        proof {
            broadcast use vstd::seq_lib::group_to_multiset_ensures;
        }
        self.handles.len() == 0
    }
}

/// Where every handle of a device stands: in its pool, or lent out to a wrapper.
pub struct Ledger {
    pub pool: Multiset<u64>,
    pub lent: Set<u64>,
}

/// A step on a pool: `take` handed out a handle, or `give` brought one back.
pub enum PoolEvent {
    Took(u64),
    Gave(u64),
}

/// Each handle stands in one place at most, and only once there.
pub open spec fn ledger_exclusive(l: Ledger) -> bool {
    &&& l.lent.finite()
    &&& forall|h: u64| #[trigger] l.pool.count(h) <= 1
    &&& forall|h: u64| l.pool.contains(h) ==> !#[trigger] l.lent.contains(h)
}

/// The number of handles that the ledger tracks.
pub open spec fn ledger_total(l: Ledger) -> nat {
    l.pool.len() + l.lent.len()
}

/// A step can happen: `take` hands out only what is in the pool, and only a lent
/// handle is given back.
pub open spec fn event_allowed(l: Ledger, e: PoolEvent) -> bool {
    match e {
        PoolEvent::Took(h) => l.pool.contains(h),
        PoolEvent::Gave(h) => l.lent.contains(h),
    }
}

/// The ledger after a step. The pool changes as the contracts of `SemaphorePool::take`
/// and `SemaphorePool::give` say.
pub open spec fn ledger_after(l: Ledger, e: PoolEvent) -> Ledger {
    match e {
        PoolEvent::Took(h) => Ledger { pool: l.pool.remove(h), lent: l.lent.insert(h) },
        PoolEvent::Gave(h) => Ledger { pool: l.pool.insert(h), lent: l.lent.remove(h) },
    }
}

/// Every step of a trace can happen, in turn.
pub open spec fn trace_allowed(l: Ledger, trace: Seq<PoolEvent>) -> bool
    decreases trace.len(),
{
    trace.len() == 0 || (event_allowed(l, trace[0]) && trace_allowed(ledger_after(l, trace[0]), trace.drop_first()))
}

/// The ledger after every step of a trace.
pub open spec fn ledger_replay(l: Ledger, trace: Seq<PoolEvent>) -> Ledger
    decreases trace.len(),
{
    if trace.len() == 0 {
        l
    } else {
        ledger_replay(ledger_after(l, trace[0]), trace.drop_first())
    }
}

/// One step keeps every handle in one place and the number of handles the same; in
/// particular a handle just taken is no longer in the pool, so it cannot be taken
/// again before it is given back.
pub proof fn lemma_step_exclusive(l: Ledger, e: PoolEvent)
    requires
        ledger_exclusive(l),
        event_allowed(l, e),
    ensures
        ledger_exclusive(ledger_after(l, e)),
        ledger_total(ledger_after(l, e)) == ledger_total(l),
        e matches PoolEvent::Took(h) ==> !ledger_after(l, e).pool.contains(h) && ledger_after(l, e).lent.contains(h),
        e matches PoolEvent::Gave(h) ==> ledger_after(l, e).pool.contains(h) && !ledger_after(l, e).lent.contains(h),
{
    let n = ledger_after(l, e);
    match e {
        PoolEvent::Took(h) => {
            assert(!l.lent.contains(h));
            assert(n.pool.count(h) == 0);
            assert forall|g: u64| n.pool.contains(g) implies !#[trigger] n.lent.contains(g) by {
                assert(l.pool.contains(g));
            }
        },
        PoolEvent::Gave(h) => {
            assert(!l.pool.contains(h));
            assert(n.pool.count(h) == 1);
            assert forall|g: u64| n.pool.contains(g) implies !#[trigger] n.lent.contains(g) by {
                if g != h {
                    assert(l.pool.contains(g));
                }
            }
        },
    }
}

/// For every sequence of takes and gives on a pool, the handles in the pool plus
/// those lent out stay the same in number, and no handle is ever both in the pool
/// and lent out, or twice in the pool: a handle is never handed out by `take` twice
/// without a `give` in between.
pub proof fn lemma_pool_exclusive(l: Ledger, trace: Seq<PoolEvent>)
    requires
        ledger_exclusive(l),
        trace_allowed(l, trace),
    ensures
        ledger_exclusive(ledger_replay(l, trace)),
        ledger_total(ledger_replay(l, trace)) == ledger_total(l),
    decreases trace.len(),
{
    if trace.len() > 0 {
        lemma_step_exclusive(l, trace[0]);
        lemma_pool_exclusive(ledger_after(l, trace[0]), trace.drop_first());
    }
}

} // verus!
