//! The bounded pool of timing events.
//!
//! Events are kept by handle in a stack: the event released last is the one
//! acquired next. The pool never holds more than [`EVENT_POOL_CAPACITY`]
//! events; an empty pool falls back to creating a fresh event, a full one to
//! destroying the event that is handed back.

use crate::cuda_funcs::{event_created, event_destroyed};
use crate::cuda_funcs::{CUDAError, CUDAEvent, VendorApi};
use object_pool::Pool;
use vstd::prelude::*;

verus! {

/// The most events the pool holds.
pub const EVENT_POOL_CAPACITY: usize = 8192;

/// `object_pool::Pool`, a stack of objects behind a lock. Nothing of its
/// inside is visible here; what it holds is spoken of through `pool_events`.
#[verifier::external_type_specification]
#[verifier::external_body]
#[verifier::reject_recursive_types(T)]
pub struct ExPool<T>(Pool<T>);

/// The handles that a pool holds, bottom of the stack first.
pub uninterp spec fn pool_events(pool: Pool<usize>) -> Seq<usize>;

/// `Pool::from_vec`: the pool holds exactly the given objects, in their order.
#[verifier::external_body]
fn pool_from_vec(events: Vec<usize>) -> (pool: Pool<usize>)
    ensures
        pool_events(pool) == events@,
{
    Pool::from_vec(events)
}

/// `Pool::len`: the number of objects in the pool.
#[verifier::external_body]
fn pool_len(pool: &Pool<usize>) -> (n: usize)
    ensures
        n == pool_events(*pool).len(),
{
    pool.len()
}

/// `Pool::try_pull` followed by `Reusable::detach`: pops the object on top of
/// the stack and takes it out of the pool's care; `None`, with the pool
/// unchanged, when the pool is empty.
#[verifier::external_body]
fn pool_try_pull(pool: &mut Pool<usize>) -> (r: Option<usize>)
    ensures
        match r {
            Some(event) => {
                &&& pool_events(*old(pool)).len() > 0
                &&& event == pool_events(*old(pool)).last()
                &&& pool_events(*final(pool)) == pool_events(*old(pool)).drop_last()
            },
            None => {
                &&& pool_events(*old(pool)).len() == 0
                &&& pool_events(*final(pool)) == pool_events(*old(pool))
            },
        },
{
    pool.try_pull().map(|reusable| reusable.detach().1)
}

/// `Pool::attach`: pushes the object on top of the stack. The pool itself
/// sets no bound; the push on its vector panics once the vector cannot grow
/// any more, so only pools far below that size are admitted.
#[verifier::external_body]
fn pool_attach(pool: &mut Pool<usize>, event: usize)
    requires
        pool_events(*old(pool)).len() < 0x0100_0000,
    ensures
        pool_events(*final(pool)) == pool_events(*old(pool)).push(event),
{
    pool.attach(event)
}

/// What became of an event that was handed back to the pool.
#[derive(Clone, Copy, Debug, PartialEq, Eq)]
pub enum Release {
    /// The pool had room and keeps the event.
    Pooled,
    /// The pool was full; the event was destroyed.
    Destroyed,
    /// The pool was full and the vendor failed to destroy the event. The
    /// failure is for logging only.
    DestroyFailed(CUDAError),
}

/// The outcome of a release that found the pool full, from the vendor's answer
/// to the destroy call.
pub open spec fn dropped(destroyed: Result<(), CUDAError>) -> Release {
    match destroyed {
        Ok(_) => Release::Destroyed,
        Err(e) => Release::DestroyFailed(e),
    }
}

/// The process-wide pool of timing events.
pub struct EventPool {
    pool: Pool<usize>,
}

impl View for EventPool {
    type V = Seq<usize>;

    closed spec fn view(&self) -> Seq<usize> {
        pool_events(self.pool)
    }
}

impl EventPool {
    /// The pool never exceeds its capacity.
    pub open spec fn wf(&self) -> bool {
        self@.len() <= EVENT_POOL_CAPACITY
    }

    /// A pool with no event in it.
    pub fn empty() -> (r: EventPool)
        ensures
            r@ == Seq::<usize>::empty(),
            r.wf(),
    {
        EventPool { pool: pool_from_vec(Vec::new()) }
    }

    /// A pool filled to capacity with fresh events. If the vendor fails to
    /// create one of them, the events created so far are destroyed and the
    /// failure is returned.
    pub fn new<V: VendorApi>(vendor: &V) -> (r: Result<EventPool, CUDAError>)
        ensures
            match r {
                Ok(pool) => {
                    &&& pool.wf()
                    &&& pool@.len() == EVENT_POOL_CAPACITY
                    &&& forall|i: int|
                        0 <= i < pool@.len() ==> event_created(
                            vendor,
                            Ok::<CUDAEvent, CUDAError>(CUDAEvent { event: #[trigger] pool@[i] }),
                        )
                },
                Err(e) => event_created(vendor, Err::<CUDAEvent, CUDAError>(e)),
            },
    {
        let mut events: Vec<usize> = Vec::new();
        while events.len() < EVENT_POOL_CAPACITY
            invariant
                events@.len() <= EVENT_POOL_CAPACITY,
                forall|i: int|
                    0 <= i < events@.len() ==> event_created(
                        vendor,
                        Ok::<CUDAEvent, CUDAError>(CUDAEvent { event: #[trigger] events@[i] }),
                    ),
            decreases EVENT_POOL_CAPACITY - events@.len(),
        {
            match CUDAEvent::new(vendor) {
                Ok(event) => {
                    events.push(event.event);
                },
                Err(e) => {
                    destroy_all(vendor, events);
                    return Err(e);
                },
            }
        }
        Ok(EventPool { pool: pool_from_vec(events) })
    }

    /// The number of events in the pool.
    pub fn len(&self) -> (n: usize)
        ensures
            n == self@.len(),
    {
        pool_len(&self.pool)
    }

    /// Takes the event on top of the pool, or creates a fresh one when the
    /// pool is empty. Only the creation of a fresh event can fail.
    pub fn acquire<V: VendorApi>(&mut self, vendor: &V) -> (r: Result<CUDAEvent, CUDAError>)
        requires
            old(self).wf(),
        ensures
            final(self).wf(),
            old(self)@.len() > 0 ==> {
                &&& r == Ok::<CUDAEvent, CUDAError>(CUDAEvent { event: old(self)@.last() })
                &&& final(self)@ == old(self)@.drop_last()
            },
            old(self)@.len() == 0 ==> final(self)@ == old(self)@ && event_created(vendor, r),
    {
        match pool_try_pull(&mut self.pool) {
            Some(event) => Ok(CUDAEvent { event }),
            None => CUDAEvent::new(vendor),
        }
    }

    /// Hands an event back. It goes on top of the pool if there is room;
    /// otherwise it is destroyed.
    pub fn release<V: VendorApi>(&mut self, vendor: &V, event: CUDAEvent) -> (r: Release)
        requires
            old(self).wf(),
        ensures
            final(self).wf(),
            old(self)@.len() < EVENT_POOL_CAPACITY ==> {
                &&& r == Release::Pooled
                &&& final(self)@ == old(self)@.push(event@)
            },
            old(self)@.len() >= EVENT_POOL_CAPACITY ==> {
                &&& final(self)@ == old(self)@
                &&& exists|destroyed: Result<(), CUDAError>| #[trigger]
                    event_destroyed(vendor, event@, destroyed) && r == dropped(destroyed)
            },
    {
        if pool_len(&self.pool) < EVENT_POOL_CAPACITY {
            pool_attach(&mut self.pool, event.event);
            Release::Pooled
        } else {
            let destroyed = event.destroy(vendor);
            assert(event_destroyed(vendor, event@, destroyed));
            match destroyed {
                Ok(_) => Release::Destroyed,
                Err(e) => Release::DestroyFailed(e),
            }
        }
    }
}

/// Destroys every event of `events`, whatever the vendor answers.
fn destroy_all<V: VendorApi>(vendor: &V, events: Vec<usize>) {
    let mut i: usize = 0;
    while i < events.len()
        invariant
            i <= events@.len(),
        decreases events@.len() - i,
    {
        let _ = vendor.cuda_event_destroy(events[i]);
        i = i + 1;
    }
}

} // verus!
