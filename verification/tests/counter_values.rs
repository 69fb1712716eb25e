use shared_counter::counter::{Counter, Fault};

#[test]
fn new_counter_holds_its_initial_value() {
    assert_eq!(Counter::new(0).value(), 0);
    assert_eq!(Counter::new(-3).value(), -3);
    assert_eq!(Counter::new(i32::MAX).value(), i32::MAX);
}

#[test]
fn bump_adds_one_and_returns_the_new_value() {
    let mut c = Counter::new(41);
    assert_eq!(c.bump(), Ok(42));
    assert_eq!(c.value(), 42);
    assert_eq!(c, Counter { count: 42 });
}

#[test]
fn bump_crosses_zero() {
    let mut c = Counter::new(-1);
    assert_eq!(c.bump(), Ok(0));
    assert_eq!(c.bump(), Ok(1));
}

#[test]
fn bump_from_the_smallest_value() {
    let mut c = Counter::new(i32::MIN);
    assert_eq!(c.bump(), Ok(i32::MIN + 1));
}

#[test]
fn bump_reaches_the_largest_value() {
    let mut c = Counter::new(i32::MAX - 1);
    assert_eq!(c.bump(), Ok(i32::MAX));
    assert_eq!(c.value(), i32::MAX);
}

#[test]
fn bump_at_the_largest_value_overflows_and_changes_nothing() {
    let mut c = Counter::new(i32::MAX);
    assert_eq!(c.bump(), Err(Fault::Overflow));
    assert_eq!(c.value(), i32::MAX);
    assert_eq!(c.bump(), Err(Fault::Overflow));
}
