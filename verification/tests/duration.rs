use termplayer::duration::Duration;

fn parts(d: Duration) -> (u64, u32) {
    (d.as_secs(), d.subsec_nanos())
}

#[test]
fn durations_are_made_from_parts() {
    assert_eq!(parts(Duration::new(7, 5)), (7, 5));
    assert_eq!(parts(Duration::zero()), (0, 0));
    assert_eq!(parts(Duration::from_secs(9)), (9, 0));
    assert_eq!(parts(Duration::from_millis(2_450)), (2, 450_000_000));
}

#[test]
fn addition_carries_and_stops_at_the_longest() {
    let sum = Duration::new(1, 600_000_000).checked_add(Duration::new(2, 700_000_000));
    assert_eq!(sum, Some(Duration::new(4, 300_000_000)));
    let longest = Duration::new(u64::MAX, 999_999_999);
    assert_eq!(longest.checked_add(Duration::new(0, 1)), None);
    assert_eq!(longest.checked_add(Duration::from_secs(1)), None);
    assert_eq!(longest.checked_add(Duration::zero()), Some(longest));
    assert_eq!(Duration::from_secs(u64::MAX).checked_add(Duration::new(0, 999_999_999)), Some(longest));
}

#[test]
fn subtraction_borrows_and_stops_at_zero() {
    let a = Duration::new(4, 300_000_000);
    let b = Duration::new(1, 600_000_000);
    assert_eq!(a.checked_sub(b), Some(Duration::new(2, 700_000_000)));
    assert_eq!(b.checked_sub(a), None);
    assert_eq!(b.saturating_sub(a), Duration::zero());
    assert_eq!(a.saturating_sub(b), Duration::new(2, 700_000_000));
    assert_eq!(a.checked_sub(a), Some(Duration::zero()));
}

#[test]
fn durations_are_ordered() {
    assert!(Duration::new(1, 999_999_999).is_less_than(Duration::from_secs(2)));
    assert!(Duration::new(2, 1).is_less_than(Duration::new(2, 2)));
    assert!(!Duration::new(2, 2).is_less_than(Duration::new(2, 2)));
    assert!(!Duration::new(3, 0).is_less_than(Duration::new(2, 9)));
}

#[test]
fn arithmetic_agrees_with_the_standard_library() {
    let samples = [
        (0u64, 0u32),
        (0, 1),
        (0, 250_000_000),
        (3, 0),
        (3, 999_999_999),
        (5, 400_000_000),
        (u64::MAX - 1, 999_999_999),
        (u64::MAX, 999_999_999),
    ];
    for (s, n) in samples {
        for (t, m) in samples {
            let (a, b) = (Duration::new(s, n), Duration::new(t, m));
            let (x, y) = (std::time::Duration::new(s, n), std::time::Duration::new(t, m));
            let own = |d: std::time::Duration| Duration::new(d.as_secs(), d.subsec_nanos());
            assert_eq!(a.checked_add(b), x.checked_add(y).map(own));
            assert_eq!(a.checked_sub(b), x.checked_sub(y).map(own));
            assert_eq!(a.saturating_sub(b), own(x.saturating_sub(y)));
            assert_eq!(a.is_less_than(b), x < y);
        }
    }
}
