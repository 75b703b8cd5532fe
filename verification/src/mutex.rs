//! The ordered ("ticket") mutex: admission is strict first come, first
//! served. Every `lock` call consumes one ticket from a wrapping counter and
//! the mutex serves tickets one by one, advancing the serving counter by
//! exactly one on every release or cancellation.

use vstd::prelude::*;

verus! {

/// One wrapping step of an admission counter. Both the issuing and the
/// serving counter advance through this same cyclic successor, so their
/// relative order is preserved across the wrap boundary.
pub open spec fn wrap_next(x: usize) -> usize {
    if x == usize::MAX {
        0
    } else {
        (x + 1) as usize
    }
}

/// The serving counter after `k` advances (releases or cancellations),
/// starting from `s`.
pub open spec fn serving_after(s: usize, k: nat) -> usize
    decreases k,
{
    if k == 0 {
        s
    } else {
        wrap_next(serving_after(s, (k - 1) as nat))
    }
}

/// Executable form of [`wrap_next`].
fn wrap_inc(x: usize) -> (r: usize)
    ensures
        r == wrap_next(x),
{
    if x == usize::MAX {
        0
    } else {
        x + 1
    }
}

/// A request is next in line when its ticket is exactly one past the serving
/// counter in plain numeric order. Ticket zero is never counted as next in
/// line: at the wrap boundary the bookkeeping deliberately stays loose, and a
/// waiter there is re-polled transitively instead of being woken directly.
pub open spec fn next_in_line(serving: usize, ticket: usize) -> bool {
    ticket > 0 && serving == ticket - 1
}

/// An ordered mutex over a payload `T`.
///
/// The admission state is two wrapping counters and a single wake slot. The
/// payload is present exactly while no guard holds it: acquisition moves it
/// into the guard and release moves it back, so "at most one live guard" is
/// ownership of the payload itself.
#[derive(Debug)]
pub struct Mutex<T> {
    /// The next ticket to issue.
    state: usize,
    /// The ticket now being served.
    current: usize,
    /// At most one pending wake registration.
    waker: Option<usize>,
    /// The payload; `None` exactly while a guard holds it.
    data: Option<T>,
}

/// The token of current exclusive access to an ordered mutex. It owns the
/// payload outright while it is alive and hands it back on release.
#[derive(Debug)]
pub struct MutexGuard<T> {
    data: T,
}

/// One pending ordered acquisition: the ticket fixed at creation and whether
/// ownership has already been transferred into a guard.
#[derive(Debug)]
pub struct MutexGuardFuture {
    id: usize,
    is_realized: bool,
}

/// The owned counterpart of [`MutexGuard`], meant for callers that reach the
/// mutex through a shared-ownership handle: because it owns the payload
/// outright, its access stays valid however long it outlives the scope that
/// created the handle.
#[derive(Debug)]
pub struct MutexOwnedGuard<T> {
    data: T,
}

/// The owned counterpart of [`MutexGuardFuture`], produced by `lock_owned`
/// and resolving into a [`MutexOwnedGuard`].
#[derive(Debug)]
pub struct MutexOwnedGuardFuture {
    id: usize,
    is_realized: bool,
}

/// The payload a successful poll hands out of admission state `m`.
pub open spec fn granted_payload<T>(m: Mutex<T>) -> T {
    m.payload()->0
}

impl<T> Mutex<T> {
    /// The next ticket `lock` will issue.
    pub closed spec fn next_ticket(self) -> usize {
        self.state
    }

    /// The ticket currently admitted to the payload.
    pub closed spec fn serving(self) -> usize {
        self.current
    }

    /// The wake registration currently stored in the single wake slot.
    pub closed spec fn wake_slot(self) -> Option<usize> {
        self.waker
    }

    /// The payload, present exactly while no guard holds it.
    pub closed spec fn payload(self) -> Option<T> {
        self.data
    }

    /// A guard derived from this mutex is currently alive.
    pub open spec fn is_held(self) -> bool {
        self.payload() is None
    }

    /// Create a new `Mutex` with both admission counters at zero.
    pub fn new(data: T) -> (m: Mutex<T>)
        ensures
            m.next_ticket() == 0,
            m.serving() == 0,
            m.wake_slot() is None,
            m.payload() == Some(data),
    {
        Mutex { state: 0, current: 0, waker: None, data: Some(data) }
    }

    /// Create a `Mutex` with both admission counters already at `start`.
    /// Admission only ever compares the two counters, so any common starting
    /// point behaves like zero; starting at the top of the range exercises
    /// the wrap boundary, where both counters wrap identically.
    pub fn new_at(data: T, start: usize) -> (m: Mutex<T>)
        ensures
            m.next_ticket() == start,
            m.serving() == start,
            m.wake_slot() is None,
            m.payload() == Some(data),
    {
        Mutex { state: start, current: start, waker: None, data: Some(data) }
    }

    /// Whether a guard derived from this mutex is currently alive.
    pub fn locked(&self) -> (r: bool)
        ensures
            r == self.is_held(),
    {
        self.data.is_none()
    }

    /// The wake token currently registered, if any. Only the request next in
    /// line registers, so a caller that polled and stayed pending can see
    /// here whether its token was stored.
    pub fn registered_waker(&self) -> (r: Option<usize>)
        ensures
            r == self.wake_slot(),
    {
        self.waker
    }

    /// Issue the next ticket and hand back the pending acquisition bound to
    /// it. The returned request acquires only once the serving counter
    /// reaches its ticket.
    pub fn lock(&mut self) -> (f: MutexGuardFuture)
        ensures
            f.ticket() == old(self).next_ticket(),
            !f.realized(),
            final(self).next_ticket() == wrap_next(old(self).next_ticket()),
            final(self).serving() == old(self).serving(),
            final(self).wake_slot() == old(self).wake_slot(),
            final(self).payload() == old(self).payload(),
    {
        let id = self.state;
        self.state = wrap_inc(self.state);
        MutexGuardFuture { id, is_realized: false }
    }

    /// Issue the next ticket for a shared-handle caller; the request and its
    /// guard are independent of the scope that created the mutex reference.
    /// The admission bookkeeping is exactly that of [`Mutex::lock`].
    pub fn lock_owned(&mut self) -> (f: MutexOwnedGuardFuture)
        ensures
            f.ticket() == old(self).next_ticket(),
            !f.realized(),
            final(self).next_ticket() == wrap_next(old(self).next_ticket()),
            final(self).serving() == old(self).serving(),
            final(self).wake_slot() == old(self).wake_slot(),
            final(self).payload() == old(self).payload(),
    {
        let id = self.state;
        self.state = wrap_inc(self.state);
        MutexOwnedGuardFuture { id, is_realized: false }
    }

    /// Store a wake registration in the single wake slot, replacing any
    /// previous one: the slot holds at most one registration at a time.
    pub fn store_waker(&mut self, waker: usize)
        ensures
            final(self).wake_slot() == Some(waker),
            final(self).next_ticket() == old(self).next_ticket(),
            final(self).serving() == old(self).serving(),
            final(self).payload() == old(self).payload(),
    {
        self.waker = Some(waker);
    }

    /// Advance the serving counter by one and take the stored wake
    /// registration, leaving the slot empty — so a registration is delivered
    /// at most once.
    fn unlock(&mut self) -> (w: Option<usize>)
        ensures
            final(self).serving() == wrap_next(old(self).serving()),
            final(self).wake_slot() is None,
            w == old(self).wake_slot(),
            final(self).next_ticket() == old(self).next_ticket(),
            final(self).payload() == old(self).payload(),
    {
        self.current = wrap_inc(self.current);
        let w = self.waker;
        self.waker = None;
        w
    }
}

impl MutexGuardFuture {
    /// The ticket this request was issued.
    pub closed spec fn ticket(self) -> usize {
        self.id
    }

    /// Whether this request has already transferred ownership into a guard.
    pub closed spec fn realized(self) -> bool {
        self.is_realized
    }

    /// One non-blocking poll of this acquisition against the mutex it was
    /// issued from. `waker` is the caller's wake token.
    ///
    /// * Serving counter equals the ticket and the payload is home: the
    ///   request realizes and yields a guard owning the payload.
    /// * Not this request's turn, but next in line: the wake token is stored
    ///   (replacing any previous registration) and the request stays pending.
    /// * Further back in line: stays pending without registering — there is
    ///   no useful notification target yet; the chain of releases re-polls it
    ///   transitively.
    pub fn poll<T>(&mut self, m: &mut Mutex<T>, waker: usize) -> (r: Option<MutexGuard<T>>)
        requires
            !old(self).realized(),
        ensures
            final(self).ticket() == old(self).ticket(),
            old(m).serving() == old(self).ticket() && !old(m).is_held() ==> ({
                &&& r is Some
                &&& r->0.value() == granted_payload(*old(m))
                &&& final(self).realized()
                &&& final(m).is_held()
                &&& final(m).serving() == old(m).serving()
                &&& final(m).next_ticket() == old(m).next_ticket()
                &&& final(m).wake_slot() == old(m).wake_slot()
            }),
            old(m).serving() == old(self).ticket() && old(m).is_held() ==> ({
                &&& r is None
                &&& !final(self).realized()
                &&& *final(m) == *old(m)
            }),
            old(m).serving() != old(self).ticket() ==> ({
                &&& r is None
                &&& !final(self).realized()
                &&& final(m).serving() == old(m).serving()
                &&& final(m).next_ticket() == old(m).next_ticket()
                &&& final(m).payload() == old(m).payload()
                &&& (next_in_line(old(m).serving(), old(self).ticket())
                    ==> final(m).wake_slot() == Some(waker))
                &&& (!next_in_line(old(m).serving(), old(self).ticket())
                    ==> final(m).wake_slot() == old(m).wake_slot())
            }),
    {
        if m.current == self.id {
            match m.data.take() {
                Some(v) => {
                    self.is_realized = true;
                    Some(MutexGuard { data: v })
                },
                None => None,
            }
        } else {
            if self.id > 0 && m.current == self.id - 1 {
                m.store_waker(waker);
            }
            None
        }
    }

    /// Abandon this acquisition. Its ticket was already issued and consumed,
    /// so a not-yet-realized request must advance the serving counter exactly
    /// as a guard's release would — otherwise every ticket after it would
    /// wait forever. A realized request has passed that duty to its guard, so
    /// nothing happens. Returns the wake registration to deliver, if any.
    pub fn cancel<T>(self, m: &mut Mutex<T>) -> (w: Option<usize>)
        ensures
            !self.realized() ==> ({
                &&& final(m).serving() == wrap_next(old(m).serving())
                &&& final(m).wake_slot() is None
                &&& w == old(m).wake_slot()
                &&& final(m).next_ticket() == old(m).next_ticket()
                &&& final(m).payload() == old(m).payload()
            }),
            self.realized() ==> *final(m) == *old(m) && w is None,
    {
        if !self.is_realized {
            m.unlock()
        } else {
            None
        }
    }
}

impl MutexOwnedGuardFuture {
    /// The ticket this request was issued.
    pub closed spec fn ticket(self) -> usize {
        self.id
    }

    /// Whether this request has already transferred ownership into a guard.
    pub closed spec fn realized(self) -> bool {
        self.is_realized
    }

    /// One non-blocking poll of this acquisition: the same admission
    /// decision as [`MutexGuardFuture::poll`], resolving into an owned
    /// guard.
    pub fn poll<T>(&mut self, m: &mut Mutex<T>, waker: usize) -> (r: Option<MutexOwnedGuard<T>>)
        requires
            !old(self).realized(),
        ensures
            final(self).ticket() == old(self).ticket(),
            old(m).serving() == old(self).ticket() && !old(m).is_held() ==> ({
                &&& r is Some
                &&& r->0.value() == granted_payload(*old(m))
                &&& final(self).realized()
                &&& final(m).is_held()
                &&& final(m).serving() == old(m).serving()
                &&& final(m).next_ticket() == old(m).next_ticket()
                &&& final(m).wake_slot() == old(m).wake_slot()
            }),
            old(m).serving() == old(self).ticket() && old(m).is_held() ==> ({
                &&& r is None
                &&& !final(self).realized()
                &&& *final(m) == *old(m)
            }),
            old(m).serving() != old(self).ticket() ==> ({
                &&& r is None
                &&& !final(self).realized()
                &&& final(m).serving() == old(m).serving()
                &&& final(m).next_ticket() == old(m).next_ticket()
                &&& final(m).payload() == old(m).payload()
                &&& (next_in_line(old(m).serving(), old(self).ticket())
                    ==> final(m).wake_slot() == Some(waker))
                &&& (!next_in_line(old(m).serving(), old(self).ticket())
                    ==> final(m).wake_slot() == old(m).wake_slot())
            }),
    {
        if m.current == self.id {
            match m.data.take() {
                Some(v) => {
                    self.is_realized = true;
                    Some(MutexOwnedGuard { data: v })
                },
                None => None,
            }
        } else {
            if self.id > 0 && m.current == self.id - 1 {
                m.store_waker(waker);
            }
            None
        }
    }

    /// Abandon this acquisition, with exactly the duty of
    /// [`MutexGuardFuture::cancel`]: a not-yet-realized request advances the
    /// serving counter as a release would.
    pub fn cancel<T>(self, m: &mut Mutex<T>) -> (w: Option<usize>)
        ensures
            !self.realized() ==> ({
                &&& final(m).serving() == wrap_next(old(m).serving())
                &&& final(m).wake_slot() is None
                &&& w == old(m).wake_slot()
                &&& final(m).next_ticket() == old(m).next_ticket()
                &&& final(m).payload() == old(m).payload()
            }),
            self.realized() ==> *final(m) == *old(m) && w is None,
    {
        if !self.is_realized {
            m.unlock()
        } else {
            None
        }
    }
}

impl<T> MutexOwnedGuard<T> {
    /// The protected payload this guard owns.
    pub closed spec fn value(self) -> T {
        self.data
    }

    /// Read the protected payload.
    pub fn get(&self) -> (r: &T)
        ensures
            *r == self.value(),
    {
        &self.data
    }

    /// Write access to the protected payload.
    pub fn get_mut(&mut self) -> (r: &mut T)
        ensures
            *r == old(self).value(),
            final(self).value() == *final(r),
    {
        &mut self.data
    }

    /// Release the mutex exactly as [`MutexGuard::release`] does.
    pub fn release(self, m: &mut Mutex<T>) -> (w: Option<usize>)
        requires
            old(m).is_held(),
        ensures
            final(m).payload() == Some(self.value()),
            final(m).serving() == wrap_next(old(m).serving()),
            final(m).wake_slot() is None,
            w == old(m).wake_slot(),
            final(m).next_ticket() == old(m).next_ticket(),
    {
        m.data = Some(self.data);
        m.unlock()
    }
}

impl<T> MutexGuard<T> {
    /// The protected payload this guard owns.
    pub closed spec fn value(self) -> T {
        self.data
    }

    /// Read the protected payload.
    pub fn get(&self) -> (r: &T)
        ensures
            *r == self.value(),
    {
        &self.data
    }

    /// Write access to the protected payload.
    pub fn get_mut(&mut self) -> (r: &mut T)
        ensures
            *r == old(self).value(),
            final(self).value() == *final(r),
    {
        &mut self.data
    }

    /// Release the mutex: the payload moves back in, the serving counter
    /// advances by one, and the stored wake registration is taken (leaving
    /// the slot empty) and returned so the caller can deliver it.
    pub fn release(self, m: &mut Mutex<T>) -> (w: Option<usize>)
        requires
            old(m).is_held(),
        ensures
            final(m).payload() == Some(self.value()),
            final(m).serving() == wrap_next(old(m).serving()),
            final(m).wake_slot() is None,
            w == old(m).wake_slot(),
            final(m).next_ticket() == old(m).next_ticket(),
    {
        m.data = Some(self.data);
        m.unlock()
    }
}

/// Closed form of [`serving_after`]: within one trip around the counter
/// width, `k` advances move the counter to `s + k`, minus one full width if
/// that overflows.
proof fn lemma_serving_after_closed(s: usize, k: nat)
    requires
        k <= usize::MAX as nat,
    ensures
        serving_after(s, k) as int == if s + k <= usize::MAX as int {
            s + k
        } else {
            s + k - (usize::MAX as int + 1)
        },
    decreases k,
{
    if k > 0 {
        lemma_serving_after_closed(s, (k - 1) as nat);
    }
}

/// First come, first served, stated over the admission arithmetic: starting
/// from serving value `s`, the ticket issued `i`-th (which is
/// `serving_after(s, i)`, because issuing and serving walk the same cyclic
/// successor) matches the serving counter after exactly `i` advances and
/// after no other advance count within the counter width. Each release or
/// cancellation is one advance, so pending requests are admitted in exactly
/// their issuance order.
pub proof fn lemma_fifo(s: usize, i: nat, k: nat)
    requires
        i <= usize::MAX as nat,
        k <= usize::MAX as nat,
    ensures
        serving_after(s, k) == serving_after(s, i) <==> k == i,
{
    lemma_serving_after_closed(s, i);
    lemma_serving_after_closed(s, k);
}

/// Of two tickets issued in order (`i`-th strictly before `j`-th), the
/// earlier one is admitted strictly first: their ticket values differ, and
/// every advance count that admits the `j`-th ticket lies strictly after the
/// advance count `i` that admits the `i`-th.
pub proof fn lemma_fifo_order(s: usize, i: nat, j: nat)
    requires
        i < j <= usize::MAX as nat,
    ensures
        serving_after(s, i) != serving_after(s, j),
        forall|k: nat|
            k <= usize::MAX as nat && serving_after(s, k) == serving_after(s, j) ==> i < k,
{
    lemma_fifo(s, i, j);
    assert forall|k: nat|
        k <= usize::MAX as nat && serving_after(s, k) == serving_after(s, j) implies i < k by {
        lemma_fifo(s, j, k);
    }
}

/// Abandoned-ticket liveness: a cancellation advances the serving counter
/// exactly as a release does ([`MutexGuardFuture::cancel`] and
/// [`MutexGuard::release`] promise the same `wrap_next` step), so a ticket
/// at distance `d` from the serving counter is still reached: after exactly
/// `d` advances of either kind the counter equals it, and after fewer it
/// never does.
pub proof fn lemma_ticket_reached(s: usize, d: nat)
    requires
        d <= usize::MAX as nat,
    ensures
        forall|k: nat| k < d ==> serving_after(s, k) != serving_after(s, d),
{
    assert forall|k: nat| k < d implies serving_after(s, k) != serving_after(s, d) by {
        lemma_fifo(s, d, k);
    }
}

/// Visibility: the payload a holder leaves behind at release is exactly the
/// payload the next admitted request is granted. `release` ensures the
/// mutex holds `Some(v)`; once the serving counter names a pending ticket,
/// `poll` hands out precisely [`granted_payload`], which is that `v`.
pub proof fn lemma_release_visibility<T>(m: Mutex<T>, v: T, f: MutexGuardFuture)
    requires
        m.payload() == Some(v),
        f.ticket() == m.serving(),
        !f.realized(),
    ensures
        granted_payload(m) == v,
{
}

/// No lost and no duplicated update: `n` rounds of acquire, increment,
/// release through the lock add exactly `n` to the protected counter. Each
/// round's guard owns the payload outright, so no interleaving of other
/// requests' polls can overlap an update.
pub fn increment_rounds(m: &mut Mutex<usize>, n: usize)
    requires
        !old(m).is_held(),
        old(m).next_ticket() == old(m).serving(),
        old(m).payload()->0 + n <= usize::MAX,
    ensures
        final(m).payload() == Some((old(m).payload()->0 + n) as usize),
        !final(m).is_held(),
        final(m).next_ticket() == final(m).serving(),
{
    let ghost v0: usize = m.payload()->0;
    let mut i: usize = 0;
    while i < n
        invariant
            i <= n,
            v0 + n <= usize::MAX,
            m.payload() == Some((v0 + i) as usize),
            m.next_ticket() == m.serving(),
        decreases n - i,
    {
        let mut fut = m.lock();
        match fut.poll(m, 0) {
            Some(mut guard) => {
                let cur: usize = *guard.get();
                *guard.get_mut() = cur + 1;
                let _w = guard.release(m);
            },
            None => {
                proof {
                    assert(false);
                }
            },
        }
        i = i + 1;
    }
}

} // verus!
