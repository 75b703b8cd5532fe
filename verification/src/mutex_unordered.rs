//! The unordered mutex: admission is a best-effort test-and-set on a single
//! locked flag. There is no queue and no fairness promise — the single wake
//! slot remembers only the most recently registered waiter, so under
//! contention delivery favours whoever registered last. In exchange the
//! admission state is a lone flag instead of two counters.

use vstd::prelude::*;

verus! {

/// An unordered mutex over a payload `T`.
///
/// The admission state is one locked flag and a single wake slot. As in the
/// ordered variant, the payload is present exactly while no guard holds it:
/// acquisition moves it into the guard and release moves it back.
#[derive(Debug)]
pub struct UnorderedMutex<T> {
    /// Whether a guard is currently alive.
    is_acquired: bool,
    /// At most one pending wake registration.
    waker: Option<usize>,
    /// The payload; `None` exactly while a guard holds it.
    data: Option<T>,
}

/// The token of current exclusive access to an unordered mutex. It owns the
/// payload outright while it is alive and hands it back on release.
#[derive(Debug)]
pub struct UnorderedMutexGuard<T> {
    data: T,
}

/// One pending unordered acquisition: only whether ownership has already
/// been transferred into a guard. No ticket is consumed by merely asking, so
/// discarding a pending request needs no compensating action.
#[derive(Debug)]
pub struct UnorderedMutexGuardFuture {
    is_realized: bool,
}

/// The owned counterpart of [`UnorderedMutexGuard`], meant for callers that
/// reach the mutex through a shared-ownership handle: because it owns the
/// payload outright, its access stays valid however long it outlives the
/// scope that created the handle.
#[derive(Debug)]
pub struct UnorderedMutexOwnedGuard<T> {
    data: T,
}

/// The owned counterpart of [`UnorderedMutexGuardFuture`], produced by
/// `lock_owned` and resolving into an [`UnorderedMutexOwnedGuard`].
#[derive(Debug)]
pub struct UnorderedMutexOwnedGuardFuture {
    is_realized: bool,
}

/// The payload a successful poll hands out of admission state `m`.
pub open spec fn granted_payload<T>(m: UnorderedMutex<T>) -> T {
    m.payload()->0
}

impl<T> UnorderedMutex<T> {
    /// Whether a guard is currently alive.
    pub closed spec fn acquired(self) -> bool {
        self.is_acquired
    }

    /// The wake registration currently stored in the single wake slot.
    pub closed spec fn wake_slot(self) -> Option<usize> {
        self.waker
    }

    /// The payload, present exactly while no guard holds it.
    pub closed spec fn payload(self) -> Option<T> {
        self.data
    }

    /// The locked flag is true exactly while a guard is alive, that is,
    /// exactly while the payload is out of the mutex.
    pub open spec fn wf(self) -> bool {
        self.acquired() <==> self.payload() is None
    }

    /// Create a new `UnorderedMutex`, unlocked and holding `data`.
    pub fn new(data: T) -> (m: UnorderedMutex<T>)
        ensures
            !m.acquired(),
            m.wake_slot() is None,
            m.payload() == Some(data),
    {
        UnorderedMutex { is_acquired: false, waker: None, data: Some(data) }
    }

    /// Whether a guard derived from this mutex is currently alive.
    pub fn locked(&self) -> (r: bool)
        ensures
            r == self.acquired(),
    {
        self.is_acquired
    }

    /// Hand back a pending acquisition. Nothing is consumed and nothing
    /// changes until the request is polled.
    pub fn lock(&self) -> (f: UnorderedMutexGuardFuture)
        ensures
            !f.realized(),
    {
        UnorderedMutexGuardFuture { is_realized: false }
    }

    /// Hand back a pending acquisition meant for shared-handle callers; the
    /// request and its guard are independent of the scope that created the
    /// mutex reference.
    pub fn lock_owned(&self) -> (f: UnorderedMutexOwnedGuardFuture)
        ensures
            !f.realized(),
    {
        UnorderedMutexOwnedGuardFuture { is_realized: false }
    }

    /// Store a wake registration in the single wake slot, replacing any
    /// previous one: the slot holds at most one registration at a time.
    pub fn store_waker(&mut self, waker: usize)
        ensures
            final(self).wake_slot() == Some(waker),
            final(self).acquired() == old(self).acquired(),
            final(self).payload() == old(self).payload(),
    {
        self.waker = Some(waker);
    }

    /// Clear the locked flag and take the stored wake registration, leaving
    /// the slot empty — so a registration is delivered at most once.
    fn unlock(&mut self) -> (w: Option<usize>)
        ensures
            !final(self).acquired(),
            final(self).wake_slot() is None,
            w == old(self).wake_slot(),
            final(self).payload() == old(self).payload(),
    {
        self.is_acquired = false;
        let w = self.waker;
        self.waker = None;
        w
    }
}

impl UnorderedMutexGuardFuture {
    /// Whether this request has already transferred ownership into a guard.
    pub closed spec fn realized(self) -> bool {
        self.is_realized
    }

    /// One non-blocking poll of this acquisition: a test-and-set on the
    /// locked flag. `waker` is the caller's wake token.
    ///
    /// * Flag was clear: it is now set, the request realizes and yields a
    ///   guard owning the payload.
    /// * Flag was set: the wake token is stored (replacing any previous
    ///   registration) and the request stays pending; on the next poll it
    ///   retries the test-and-set.
    pub fn poll<T>(&mut self, m: &mut UnorderedMutex<T>, waker: usize) -> (r: Option<
        UnorderedMutexGuard<T>,
    >)
        requires
            !old(self).realized(),
            old(m).wf(),
        ensures
            final(m).wf(),
            !old(m).acquired() ==> ({
                &&& r is Some
                &&& r->0.value() == granted_payload(*old(m))
                &&& final(self).realized()
                &&& final(m).acquired()
                &&& final(m).wake_slot() == old(m).wake_slot()
            }),
            old(m).acquired() ==> ({
                &&& r is None
                &&& !final(self).realized()
                &&& final(m).acquired()
                &&& final(m).payload() == old(m).payload()
                &&& final(m).wake_slot() == Some(waker)
            }),
    {
        if !m.is_acquired {
            m.is_acquired = true;
            match m.data.take() {
                Some(v) => {
                    self.is_realized = true;
                    Some(UnorderedMutexGuard { data: v })
                },
                None => None,
            }
        } else {
            m.store_waker(waker);
            None
        }
    }
}

impl UnorderedMutexOwnedGuardFuture {
    /// Whether this request has already transferred ownership into a guard.
    pub closed spec fn realized(self) -> bool {
        self.is_realized
    }

    /// One non-blocking poll of this acquisition: the same test-and-set as
    /// [`UnorderedMutexGuardFuture::poll`], resolving into an owned guard.
    pub fn poll<T>(&mut self, m: &mut UnorderedMutex<T>, waker: usize) -> (r: Option<
        UnorderedMutexOwnedGuard<T>,
    >)
        requires
            !old(self).realized(),
            old(m).wf(),
        ensures
            final(m).wf(),
            !old(m).acquired() ==> ({
                &&& r is Some
                &&& r->0.value() == granted_payload(*old(m))
                &&& final(self).realized()
                &&& final(m).acquired()
                &&& final(m).wake_slot() == old(m).wake_slot()
            }),
            old(m).acquired() ==> ({
                &&& r is None
                &&& !final(self).realized()
                &&& final(m).acquired()
                &&& final(m).payload() == old(m).payload()
                &&& final(m).wake_slot() == Some(waker)
            }),
    {
        if !m.is_acquired {
            m.is_acquired = true;
            match m.data.take() {
                Some(v) => {
                    self.is_realized = true;
                    Some(UnorderedMutexOwnedGuard { data: v })
                },
                None => None,
            }
        } else {
            m.store_waker(waker);
            None
        }
    }
}

impl<T> UnorderedMutexOwnedGuard<T> {
    /// The protected payload this guard owns.
    pub closed spec fn value(self) -> T {
        self.data
    }

    /// Read the protected payload.
    pub fn get(&self) -> (r: &T)
        ensures
            *r == self.value(),
    {
        &self.data
    }

    /// Write access to the protected payload.
    pub fn get_mut(&mut self) -> (r: &mut T)
        ensures
            *r == old(self).value(),
            final(self).value() == *final(r),
    {
        &mut self.data
    }

    /// Release the mutex exactly as [`UnorderedMutexGuard::release`] does.
    pub fn release(self, m: &mut UnorderedMutex<T>) -> (w: Option<usize>)
        requires
            old(m).acquired(),
            old(m).wf(),
        ensures
            final(m).wf(),
            !final(m).acquired(),
            final(m).payload() == Some(self.value()),
            final(m).wake_slot() is None,
            w == old(m).wake_slot(),
    {
        m.data = Some(self.data);
        m.unlock()
    }
}

impl<T> UnorderedMutexGuard<T> {
    /// The protected payload this guard owns.
    pub closed spec fn value(self) -> T {
        self.data
    }

    /// Read the protected payload.
    pub fn get(&self) -> (r: &T)
        ensures
            *r == self.value(),
    {
        &self.data
    }

    /// Write access to the protected payload.
    pub fn get_mut(&mut self) -> (r: &mut T)
        ensures
            *r == old(self).value(),
            final(self).value() == *final(r),
    {
        &mut self.data
    }

    /// Release the mutex: the payload moves back in, the locked flag clears,
    /// and the stored wake registration is taken (leaving the slot empty)
    /// and returned so the caller can deliver it.
    pub fn release(self, m: &mut UnorderedMutex<T>) -> (w: Option<usize>)
        requires
            old(m).acquired(),
            old(m).wf(),
        ensures
            final(m).wf(),
            !final(m).acquired(),
            final(m).payload() == Some(self.value()),
            final(m).wake_slot() is None,
            w == old(m).wake_slot(),
    {
        m.data = Some(self.data);
        m.unlock()
    }
}

/// Visibility: the payload a holder leaves behind at release is exactly the
/// payload the next successful acquisition is granted. `release` ensures the
/// mutex holds `Some(v)` with the flag clear; the next poll to win the
/// test-and-set hands out precisely [`granted_payload`], which is that `v`.
pub proof fn lemma_release_visibility<T>(m: UnorderedMutex<T>, v: T, f: UnorderedMutexGuardFuture)
    requires
        m.payload() == Some(v),
        !m.acquired(),
        !f.realized(),
    ensures
        granted_payload(m) == v,
{
}

/// No lost and no duplicated update: `n` rounds of acquire, increment,
/// release through the lock add exactly `n` to the protected counter. Each
/// round's guard owns the payload outright, so no interleaving of other
/// requests' polls can overlap an update.
pub fn increment_rounds(m: &mut UnorderedMutex<usize>, n: usize)
    requires
        old(m).wf(),
        !old(m).acquired(),
        old(m).payload()->0 + n <= usize::MAX,
    ensures
        final(m).wf(),
        !final(m).acquired(),
        final(m).payload() == Some((old(m).payload()->0 + n) as usize),
{
    let ghost v0: usize = m.payload()->0;
    let mut i: usize = 0;
    while i < n
        invariant
            i <= n,
            v0 + n <= usize::MAX,
            m.wf(),
            !m.acquired(),
            m.payload() == Some((v0 + i) as usize),
        decreases n - i,
    {
        let mut fut = m.lock();
        match fut.poll(m, 0) {
            Some(mut guard) => {
                let cur: usize = *guard.get();
                *guard.get_mut() = cur + 1;
                let _w = guard.release(m);
            },
            None => {
                proof {
                    assert(false);
                }
            },
        }
        i = i + 1;
    }
}

} // verus!
