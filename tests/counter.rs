use counter_service::{Counter, Incremented, InnerCounter};

fn built(start: u64) -> Counter {
    match Counter::new(start) {
        Ok(c) => c,
        Err(e) => panic!("construction failed: {}", e),
    }
}

fn event_of(r: Result<Incremented, String>) -> Incremented {
    match r {
        Ok(e) => e,
        Err(e) => panic!("increment failed: {}", e),
    }
}

#[test]
fn construct_then_get_returns_start() {
    for start in [0u64, 1, 7, 1_000_000, u64::MAX - 1, u64::MAX] {
        let mut c = built(start);
        assert_eq!(c.get_counter(), Ok(start));
    }
}

#[test]
fn set_then_get_returns_value() {
    let mut c = built(3);
    for v in [0u64, 42, 3, u64::MAX, 9] {
        assert_eq!(c.set_counter(v), Ok(()));
        assert_eq!(c.get_counter(), Ok(v));
    }
}

#[test]
fn increment_once_reports_new_value() {
    let mut c = built(41);
    let e = event_of(c.increment_counter());
    assert_eq!(e, Incremented { new_counter: 42, inner: InnerCounter { inner_counter: 42 } });
    assert_eq!(c.get_counter(), Ok(42));
}

#[test]
fn increments_in_sequence_report_each_value() {
    let n: u64 = 10;
    let k: u64 = 5;
    let mut c = built(n);
    let mut reported: Vec<u64> = Vec::new();
    for _ in 0..k {
        let e = event_of(c.increment_counter());
        assert_eq!(e.new_counter, e.inner.inner_counter);
        reported.push(e.new_counter);
    }
    assert_eq!(reported, vec![11, 12, 13, 14, 15]);
    assert_eq!(c.get_counter(), Ok(n + k));
}

#[test]
fn scenario_from_zero() {
    let mut c = built(0);
    assert_eq!(c.get_counter(), Ok(0));
    let e = event_of(c.increment_counter());
    assert_eq!(c.get_counter(), Ok(1));
    assert_eq!(e.new_counter, 1);
    assert_eq!(e.inner.inner_counter, 1);
    assert_eq!(c.set_counter(100), Ok(()));
    assert_eq!(c.get_counter(), Ok(100));
    let e = event_of(c.increment_counter());
    assert_eq!(c.get_counter(), Ok(101));
    assert_eq!(e.new_counter, 101);
    assert_eq!(e.inner.inner_counter, 101);
}

#[test]
fn repeated_reads_agree() {
    let mut c = built(77);
    for _ in 0..4 {
        assert_eq!(c.get_counter(), Ok(77));
    }
}

#[test]
fn increment_at_largest_value_fails_and_keeps_count() {
    let mut c = built(u64::MAX);
    assert_eq!(c.increment_counter().err(), Some("counter overflow".to_string()));
    assert_eq!(c.get_counter(), Ok(u64::MAX));
}

#[test]
fn increment_reaches_largest_value() {
    let mut c = built(u64::MAX - 1);
    let e = event_of(c.increment_counter());
    assert_eq!(e.new_counter, u64::MAX);
    assert_eq!(e.inner.inner_counter, u64::MAX);
    assert!(c.increment_counter().is_err());
}
