use vstd::prelude::*;

use crate::error::EdenServerError;

verus! {

/// Mathematical model of the dispatch pool: its fixed worker capacity and
/// how many sends are in flight.
#[verifier::ext_equal]
pub struct PoolModel {
    pub capacity: int,
    pub in_flight: int,
}

/// One slot-accounting operation on the pool: a submission takes a slot, a
/// finished send — successful or not — gives its slot back.
pub enum PoolOp {
    Acquire,
    Complete { success: bool },
}

/// Slot accounting of the bounded dispatch pool. A submission may only go
/// out once it holds a slot; a worker returns its slot when its send is
/// over, whatever the outcome. The pool never holds more sends in flight
/// than its capacity.
pub struct DispatchPool {
    capacity: usize,
    in_flight: usize,
}

impl View for DispatchPool {
    type V = PoolModel;

    closed spec fn view(&self) -> PoolModel {
        PoolModel { capacity: self.capacity as int, in_flight: self.in_flight as int }
    }
}

/// The pool invariant: at least one worker, and never more sends in flight
/// than workers.
pub open spec fn pool_wf(p: PoolModel) -> bool {
    &&& p.capacity >= 1
    &&& 0 <= p.in_flight <= p.capacity
}

/// What acquiring a slot does to the model: it succeeds exactly when a slot
/// is free, and then one more send is in flight.
pub open spec fn spec_acquire(p: PoolModel) -> (PoolModel, bool) {
    if p.in_flight < p.capacity {
        ((PoolModel { capacity: p.capacity, in_flight: p.in_flight + 1 }), true)
    } else {
        (p, false)
    }
}

/// What finishing a send does to the model: one slot comes back. The outcome
/// of the send does not appear on the right-hand side: delivery is
/// fire-and-forget, and a failure changes the pool exactly as a success
/// does.
pub open spec fn spec_complete(p: PoolModel, success: bool) -> PoolModel {
    if p.in_flight >= 1 {
        PoolModel { capacity: p.capacity, in_flight: p.in_flight - 1 }
    } else {
        p
    }
}

/// A run of slot operations, applied oldest first.
pub open spec fn spec_pool_run(p: PoolModel, ops: Seq<PoolOp>) -> PoolModel
    decreases ops.len(),
{
    if ops.len() == 0 {
        p
    } else {
        let next = match ops.first() {
            PoolOp::Acquire => spec_acquire(p).0,
            PoolOp::Complete { success } => spec_complete(p, success),
        };
        spec_pool_run(next, ops.drop_first())
    }
}

/// Fire-and-forget on failure: a failed send releases its slot exactly as a
/// successful one does, so it cannot block later submissions.
pub proof fn lemma_fire_and_forget(p: PoolModel)
    ensures
        spec_complete(p, false) == spec_complete(p, true),
{
}

/// Bounded concurrency: from any well-formed pool state, after any sequence
/// of submissions and completions — including any prefix of it — never are
/// more sends in flight than the pool's capacity.
pub proof fn lemma_bounded_concurrency(p: PoolModel, ops: Seq<PoolOp>)
    requires
        pool_wf(p),
    ensures
        forall|i: int| 0 <= i <= ops.len() ==> pool_wf(spec_pool_run(p, #[trigger] ops.take(i))),
    decreases ops.len(),
{
    assert(ops.take(0) =~= Seq::<PoolOp>::empty());
    if ops.len() > 0 {
        let next = match ops.first() {
            PoolOp::Acquire => spec_acquire(p).0,
            PoolOp::Complete { success } => spec_complete(p, success),
        };
        lemma_bounded_concurrency(next, ops.drop_first());
        assert forall|i: int| 1 <= i <= ops.len() implies pool_wf(
            spec_pool_run(p, #[trigger] ops.take(i)),
        ) by {
            assert(ops.take(i).drop_first() =~= ops.drop_first().take(i - 1));
            assert(pool_wf(spec_pool_run(next, ops.drop_first().take(i - 1))));
        }
    }
}

impl DispatchPool {
    /// Builds a pool of `capacity` worker slots, none in flight. A capacity
    /// of zero could never deliver anything, so it is a configuration
    /// error, rejected at construction.
    pub fn new(capacity: usize) -> (r: Result<DispatchPool, EdenServerError>)
        ensures
            r is Ok <==> capacity >= 1,
            r is Ok ==> r->Ok_0@ == (PoolModel { capacity: capacity as int, in_flight: 0 }),
            r is Ok ==> pool_wf(r->Ok_0@),
    {
        if capacity == 0 {
            Err(EdenServerError::new("dispatch pool size must be at least 1".to_owned()))
        } else {
            Ok(DispatchPool { capacity, in_flight: 0 })
        }
    }

    /// The pool's fixed capacity.
    pub fn capacity(&self) -> (n: usize)
        ensures
            n == self@.capacity,
    {
        self.capacity
    }

    /// How many sends are in flight.
    pub fn in_flight(&self) -> (n: usize)
        ensures
            n == self@.in_flight,
    {
        self.in_flight
    }

    /// Tries to take a worker slot for one submission, exactly as
    /// `spec_acquire` says: it succeeds when and only when a slot is free.
    /// When every slot is busy the submission must wait and try again — the
    /// pool never over-commits and never drops a batch.
    pub fn try_acquire(&mut self) -> (acquired: bool)
        requires
            pool_wf(old(self)@),
        ensures
            pool_wf(final(self)@),
            final(self)@ == spec_acquire(old(self)@).0,
            acquired == spec_acquire(old(self)@).1,
    {
        if self.in_flight < self.capacity {
            self.in_flight = self.in_flight + 1;
            true
        } else {
            false
        }
    }

    /// Returns the slot of a finished send, exactly as `spec_complete`
    /// says. The send's outcome is taken — a failure is logged and its batch
    /// discarded by the caller — but the slot comes back either way.
    pub fn complete(&mut self, success: bool)
        requires
            pool_wf(old(self)@),
            old(self)@.in_flight >= 1,
        ensures
            pool_wf(final(self)@),
            final(self)@ == spec_complete(old(self)@, success),
    {
        let _ = success;
        self.in_flight = self.in_flight - 1;
    }
}

} // verus!
