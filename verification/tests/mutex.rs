use fast_async_mutex::mutex::{increment_rounds, Mutex, MutexGuard, MutexOwnedGuard};

/// Poll a fresh acquisition once, expecting immediate admission.
fn acquire<T>(m: &mut Mutex<T>) -> MutexGuard<T> {
    let mut f = m.lock();
    match f.poll(m, 0) {
        Some(g) => g,
        None => panic!("acquisition should have been granted"),
    }
}

fn acquire_owned<T>(m: &mut Mutex<T>) -> MutexOwnedGuard<T> {
    let mut f = m.lock_owned();
    match f.poll(m, 0) {
        Some(g) => g,
        None => panic!("acquisition should have been granted"),
    }
}

#[test]
fn mutex_test_mutex() {
    let mut c = Mutex::new(0i32);

    for _ in 0..10000 {
        let mut co: MutexGuard<i32> = acquire(&mut c);
        *co.get_mut() += 1;
        co.release(&mut c);
    }

    let co = acquire(&mut c);
    assert_eq!(*co.get(), 10000);
}

#[test]
fn mutex_test_mutex_delay() {
    let expected_result = 100i64;
    let mut c = Mutex::new(0i64);

    // Queue up every request before serving any: tickets are fixed at
    // issuance, and each is admitted exactly in turn however long the
    // holder before it dawdles.
    let mut futures = Vec::new();
    for _ in 0..expected_result {
        futures.push(c.lock());
    }
    for mut f in futures {
        let mut co = match f.poll(&mut c, 0) {
            Some(g) => g,
            None => panic!("next ticket in line should have been granted"),
        };
        *co.get_mut() += 1;
        co.release(&mut c);
    }

    let co = acquire(&mut c);
    assert_eq!(*co.get(), expected_result);
}

#[test]
fn mutex_test_owned_mutex() {
    let mut c = Mutex::new(0i32);

    for _ in 0..10000 {
        let mut co: MutexOwnedGuard<i32> = acquire_owned(&mut c);
        *co.get_mut() += 1;
        co.release(&mut c);
    }

    let co = acquire_owned(&mut c);
    assert_eq!(*co.get(), 10000);
}

#[test]
fn mutex_test_container() {
    let mut c = Mutex::new(String::from("lol"));

    let mut co: MutexGuard<String> = acquire(&mut c);
    co.get_mut().push_str("lol");

    assert_eq!(*co.get(), "lollol");
}

#[test]
fn test_overflow() {
    // Both admission counters start at the top of the range, so the very
    // first ticket is issued at the wrap boundary.
    let mut c = Mutex::new_at(String::from("lol"), usize::MAX);

    let mut co: MutexGuard<String> = acquire(&mut c);
    co.get_mut().push_str("lol");
    assert_eq!(*co.get(), "lollol");
    co.release(&mut c);

    // Both counters wrapped identically: the next ticket (zero) is served
    // just like any other.
    let co = acquire(&mut c);
    assert_eq!(*co.get(), "lollol");
}

#[test]
fn mutex_test_timeout() {
    let mut c = Mutex::new(String::from("lol"));

    let co: MutexGuard<String> = acquire(&mut c);

    // Each attempt on the held mutex stays pending; abandoning it (as a
    // timeout would) leaves the admission state sound.
    for _ in 0..10000 {
        let mut f = c.lock();
        assert!(f.poll(&mut c, 0).is_none());
        f.cancel(&mut c);
    }

    co.release(&mut c);

    let mut co: MutexGuard<String> = acquire(&mut c);
    co.get_mut().push_str("lol");
    assert_eq!(*co.get(), "lollol");
}

#[test]
fn mutex_fifo_order() {
    let mut c = Mutex::new(0u32);

    let holder = acquire(&mut c);
    let mut f1 = c.lock();
    let mut f2 = c.lock();
    let mut f3 = c.lock();

    // Nobody is admitted while the holder lives, whatever the poll order.
    assert!(f3.poll(&mut c, 0).is_none());
    assert!(f1.poll(&mut c, 0).is_none());
    assert!(f2.poll(&mut c, 0).is_none());

    holder.release(&mut c);

    // Only the earliest pending ticket is admitted, in issuance order.
    assert!(f3.poll(&mut c, 0).is_none());
    assert!(f2.poll(&mut c, 0).is_none());
    let g1 = f1.poll(&mut c, 0).expect("first in line");
    g1.release(&mut c);

    assert!(f3.poll(&mut c, 0).is_none());
    let g2 = f2.poll(&mut c, 0).expect("second in line");
    g2.release(&mut c);

    let g3 = f3.poll(&mut c, 0).expect("third in line");
    g3.release(&mut c);
}

#[test]
fn mutex_cancel_liveness() {
    let mut c = Mutex::new(0u32);

    let holder = acquire(&mut c);
    let f1 = c.lock();
    let mut f2 = c.lock();

    // The pending request before f2 is abandoned before realization...
    f1.cancel(&mut c);
    holder.release(&mut c);

    // ...and the ticket issued after it still acquires.
    let g2 = f2.poll(&mut c, 0).expect("later ticket must not be blocked");
    g2.release(&mut c);
}

#[test]
fn mutex_visibility() {
    let mut c = Mutex::new(0u64);

    let mut g = acquire(&mut c);
    *g.get_mut() = 42;
    g.release(&mut c);

    let g = acquire(&mut c);
    assert_eq!(*g.get(), 42);
}

#[test]
fn mutex_waker_replacement() {
    let mut c = Mutex::new(0u8);

    let holder = acquire(&mut c);
    let mut f1 = c.lock();

    // The next request in line registers on every poll; the slot keeps only
    // the latest registration.
    assert!(f1.poll(&mut c, 11).is_none());
    assert!(f1.poll(&mut c, 12).is_none());

    // Release takes the single stored registration...
    assert_eq!(holder.release(&mut c), Some(12));

    // ...exactly once: the slot is empty afterwards.
    let g1 = f1.poll(&mut c, 0).expect("now first in line");
    assert_eq!(g1.release(&mut c), None);
}

#[test]
fn mutex_owned_guard_independence() {
    let mut c = Mutex::new(7i32);

    let g = acquire_owned(&mut c);
    drop(c);

    // The owned guard's access outlives the handle that created it.
    assert_eq!(*g.get(), 7);
}

#[test]
fn mutex_store_waker_delivery() {
    let mut c = Mutex::new(1u8);

    assert!(!c.locked());
    assert_eq!(c.registered_waker(), None);

    // A registration stored directly is delivered by the next release,
    // leaving the slot empty again.
    c.store_waker(9);
    assert_eq!(c.registered_waker(), Some(9));

    let g = acquire(&mut c);
    assert!(c.locked());
    assert_eq!(g.release(&mut c), Some(9));

    assert!(!c.locked());
    assert_eq!(c.registered_waker(), None);
}

#[test]
fn mutex_increment_rounds() {
    let mut c = Mutex::new(5usize);

    increment_rounds(&mut c, 37);

    let g = acquire(&mut c);
    assert_eq!(*g.get(), 42);
}
