use scribblai::counter::{Counter, Msg};

#[test]
fn counter_starts_at_zero_and_increments() {
    let mut c = Counter::create();
    assert_eq!(c.count(), 0);
    assert!(c.update(Msg::Increment));
    assert!(c.update(Msg::Increment));
    assert_eq!(c.count(), 2);
}
