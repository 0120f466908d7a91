use kontena::util::backoff::Attempts;

#[test]
fn attempts_run_out_at_the_limit() {
    let mut a = Attempts::new(2);
    assert_eq!(a.attempts(), 0);
    assert!(a.take());
    assert!(a.take());
    assert!(!a.take());
    assert!(!a.take());
    assert_eq!(a.attempts(), 2);
    assert_eq!(a.max_attempts(), 2);
}

#[test]
fn zero_attempts_allowed_gives_none() {
    let mut a = Attempts::new(0);
    assert!(!a.take());
    assert_eq!(a.attempts(), 0);
}

#[test]
fn reset_gives_the_attempts_back() {
    let mut a = Attempts::new(5);
    assert!(a.take());
    assert!(a.take());
    assert_eq!(a.attempts(), 2);
    a.reset();
    assert_eq!(a.attempts(), 0);
    assert!(a.take());
    assert_eq!(a.attempts(), 1);
    assert_eq!(a.max_attempts(), 5);
}

#[test]
fn ten_attempts_by_default_count() {
    let mut a = Attempts::new(10);
    let mut taken = 0;
    while a.take() {
        taken += 1;
    }
    assert_eq!(taken, 10);
}
