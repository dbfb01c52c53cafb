use spin::arbiter::Arbiter;

// The pool is counted in tenths of a resource unit, so a starting budget of
// 21.0 units with a reservation threshold of 10.0, a regular step of 1.0 and
// a privileged step of 1.5 becomes 210, 100, 10 and 15.

#[test]
fn regular_admission_stops_at_the_reservation_line() {
    let mut a = Arbiter::new(210, 100, 10, 15);
    let mut expected: u64 = 200;
    // Regular acquisitions succeed while the pool stays above the line,
    // yielding 20.0, 19.0, ..., 11.0 in tenths.
    while expected >= 110 {
        assert_eq!(a.acquire_regular(), Some(expected));
        expected -= 10;
    }
    // The acquisition that would leave the pool at or below the reservation
    // line is denied, and the pool does not move.
    assert_eq!(a.acquire_regular(), None);
    assert_eq!(a.current(), 110);
    assert_eq!(a.acquire_regular(), None);
    assert_eq!(a.current(), 110);
}

#[test]
fn privileged_admission_ignores_the_reservation_line() {
    let mut a = Arbiter::new(210, 100, 10, 15);
    // Deplete to the reservation line with regular acquisitions.
    while a.acquire_regular().is_some() {}
    assert_eq!(a.current(), 110);
    // Privileged acquisitions keep depleting past the line.
    assert_eq!(a.acquire_privileged(), Some(95));
    assert_eq!(a.acquire_privileged(), Some(80));
    assert_eq!(a.acquire_privileged(), Some(65));
    // Regular consumers stay denied below the line.
    assert_eq!(a.acquire_regular(), None);
    assert_eq!(a.current(), 65);
}

#[test]
fn privileged_depletion_ends_at_one_step() {
    let mut a = Arbiter::new(210, 100, 10, 15);
    let mut expected: i64 = 195;
    // From 21.0 with a step of 1.5: 19.5, 18.0, ..., 1.5, then denial
    // exactly when the pool would reach at or below one privileged step.
    while expected >= 15 {
        assert_eq!(a.acquire_privileged(), Some(expected as u64));
        expected -= 15;
    }
    assert_eq!(a.current(), 15);
    assert_eq!(a.acquire_privileged(), None);
    assert_eq!(a.current(), 15);
}

#[test]
fn pool_never_increases() {
    let mut a = Arbiter::new(100, 30, 7, 11);
    let mut last = a.current();
    for i in 0..40 {
        if i % 2 == 0 {
            let _ = a.acquire_regular();
        } else {
            let _ = a.acquire_privileged();
        }
        let now = a.current();
        assert!(now <= last);
        last = now;
    }
}

#[test]
fn denial_is_not_an_error_for_tiny_pools() {
    // A pool that already sits at one privileged step denies both classes.
    let mut a = Arbiter::new(15, 100, 10, 15);
    assert_eq!(a.acquire_regular(), None);
    assert_eq!(a.acquire_privileged(), None);
    assert_eq!(a.current(), 15);
    // An empty pool likewise.
    let mut b = Arbiter::new(0, 0, 1, 1);
    assert_eq!(b.acquire_regular(), None);
    assert_eq!(b.acquire_privileged(), None);
    assert_eq!(b.current(), 0);
}
