use lancelot::id::ID;
use lancelot::timestamp::TimeStamp;

#[derive(Debug, PartialEq, Eq, Clone, Copy)]
struct Apple;

#[test]
fn id_holds_its_integer() {
    let id: ID<Apple> = ID::new(17);
    assert_eq!(id.value(), 17);
    assert_eq!(*id, 17);
    assert_eq!(ID::<Apple>::new(i64::MIN).value(), i64::MIN);
    assert_eq!(ID::<Apple>::new(i64::MAX).value(), i64::MAX);
}

#[test]
fn id_default_is_zero() {
    let id: ID<Apple> = ID::default();
    assert_eq!(id.value(), 0);
    assert_eq!(id, ID::new(0));
}

#[test]
fn id_equality_goes_by_the_integer() {
    assert_eq!(ID::<Apple>::new(3), ID::<Apple>::new(3));
    assert_ne!(ID::<Apple>::new(3), ID::<Apple>::new(4));
}

#[test]
fn id_is_copied_not_moved() {
    let id: ID<Apple> = ID::new(5);
    let copy = id;
    let clone = id.clone();
    assert_eq!(id, copy);
    assert_eq!(id, clone);
}

#[test]
fn id_orders_as_its_integer() {
    let low: ID<Apple> = ID::new(-2);
    let high: ID<Apple> = ID::new(9);
    assert!(low < high);
    assert!(high > low);
    assert!(low <= low);
    assert!(!(high < low));
    assert_eq!(low.partial_cmp(&high), Some(std::cmp::Ordering::Less));
    assert_eq!(high.partial_cmp(&low), Some(std::cmp::Ordering::Greater));
    assert_eq!(low.partial_cmp(&low), Some(std::cmp::Ordering::Equal));
}

#[test]
fn id_converts_to_and_from_its_integer() {
    let id: ID<Apple> = ID::from(12);
    assert_eq!(id, ID::new(12));
    let back: i64 = id.into();
    assert_eq!(back, 12);
    assert_eq!(i64::from(ID::<Apple>::new(-1)), -1);
}

#[test]
fn id_can_be_changed_in_place() {
    let mut id: ID<Apple> = ID::new(1);
    *id = 8;
    assert_eq!(id.value(), 8);
    *id += 1;
    assert_eq!(id, ID::new(9));
}

#[test]
fn timestamp_holds_its_seconds() {
    assert_eq!(TimeStamp::from_seconds(1431648000).seconds(), 1431648000);
    assert_eq!(TimeStamp::from_seconds(-1).seconds(), -1);
    assert_eq!(TimeStamp::from_seconds(0), TimeStamp::from_seconds(0));
    assert_ne!(TimeStamp::from_seconds(0), TimeStamp::from_seconds(1));
}

#[test]
fn timestamp_orders_by_time() {
    let early = TimeStamp::from_seconds(10);
    let late = TimeStamp::from_seconds(20);
    assert!(early < late);
    assert!(late >= early);
    assert_eq!(early.partial_cmp(&late), Some(std::cmp::Ordering::Less));
    assert_eq!(late.partial_cmp(&early), Some(std::cmp::Ordering::Greater));
    assert_eq!(early.partial_cmp(&early), Some(std::cmp::Ordering::Equal));
    assert_eq!(early.cmp(&late), std::cmp::Ordering::Less);
    assert_eq!(early.max(late), late);
    let mut times = vec![late, early, TimeStamp::from_seconds(-5)];
    times.sort();
    assert_eq!(times, vec![TimeStamp::from_seconds(-5), early, late]);
}

#[test]
fn now_is_after_the_epoch_and_does_not_run_backwards() {
    let first = TimeStamp::now();
    let second = TimeStamp::now();
    assert!(first.seconds() > 1_600_000_000);
    assert!(second >= first);
    assert!(second.seconds() - first.seconds() < 60);
}
