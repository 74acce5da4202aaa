use telepass::last_seen::LastSeenSet;
use telepass::rated::RatedSet;

#[test]
fn insert_and_get_should_work() {
    let mut set = RatedSet::<u32>::new(3);
    set.insert(0);
    set.insert(1);
    set.insert(2);

    assert!(matches!(set.get(&1), Some(&1)));
    assert!(set.get(&3).is_none());
}

#[test]
fn remove_should_work() {
    let mut set = RatedSet::<u32>::new(3);
    set.insert(0);
    set.insert(1);
    set.insert(2);

    set.remove(&1);
    assert!(set.get(&1).is_none());
}

#[test]
fn insert_should_not_replace_until_set_is_full() {
    let mut set = RatedSet::<u32>::new(3);
    set.insert(0);
    assert!(matches!(set.get(&0), Some(&0)));
    set.insert(1);
    assert!(matches!(set.get(&1), Some(&1)));
    set.insert(2);
    assert!(matches!(set.get(&2), Some(&2)));
}

#[test]
fn insert_should_replace_the_least_usable() {
    let mut set = RatedSet::<u32>::new(3);
    set.insert(0);
    set.insert(1);
    set.insert(2);

    // Increasing usage rates
    set.get(&0);
    set.get(&1);
    set.get(&1);
    set.get(&2);
    set.get(&2);

    set.insert(3);
    assert!(matches!(set.get(&3), Some(&3)));
    assert!(set.get(&0).is_none());
}

#[test]
fn insert_returns_the_replaced_value() {
    let mut set = RatedSet::<u32>::new(3);
    assert_eq!(set.insert(7), None);
    assert_eq!(set.insert(7), Some(7));
    assert_eq!(set.remove(&7), Some(7));
    assert_eq!(set.remove(&7), None);
}

#[test]
fn set_never_holds_more_than_its_capacity() {
    let mut set = RatedSet::<u32>::new(3);
    for value in 0..10u32 {
        set.insert(value);
    }
    let held = (0..10u32).filter(|value| set.get(value).is_some()).count();
    assert_eq!(held, 3);
}

#[test]
fn reinserting_a_key_replaces_it_in_place() {
    let mut set = RatedSet::<u32>::new(1);
    set.insert(5);
    assert_eq!(set.insert(5), Some(5));
    assert!(matches!(set.get(&5), Some(&5)));

    let mut full = RatedSet::<u32>::new(2);
    full.insert(0);
    full.insert(1);
    full.get(&1);
    // 0 has the smallest rate, but re-inserting it drops nothing.
    assert_eq!(full.insert(0), Some(0));
    assert!(matches!(full.get(&1), Some(&1)));
    assert!(matches!(full.get(&0), Some(&0)));
}

#[test]
fn last_seen_insert_and_get_should_work() {
    let mut set = LastSeenSet::<u32, u32>::new(2);
    set.insert(10);
    set.insert(20);
    assert!(matches!(set.get(&10), Some(&10)));
    assert!(set.get(&30).is_none());
    assert_eq!(set.remove(&20), Some(20));
    assert!(set.get(&20).is_none());
}

#[test]
fn last_seen_replaces_the_least_recently_seen() {
    let mut set = LastSeenSet::<u32, u32>::new(2);
    set.insert(1);
    set.insert(2);
    set.get(&2);
    set.insert(3);
    assert!(set.get(&1).is_none());
    assert!(matches!(set.get(&2), Some(&2)));
    assert!(matches!(set.get(&3), Some(&3)));
}

#[test]
fn last_seen_keeps_the_last_seen_records() {
    let mut set = LastSeenSet::<u32, u32>::new(2);
    set.insert(0);
    set.get(&0);
    set.insert(1);
    // 0 was last seen before 1.
    set.insert(2);
    assert!(matches!(set.get(&1), Some(&1)));
    assert!(matches!(set.get(&2), Some(&2)));
    assert!(set.get(&0).is_none());
}

#[test]
fn last_seen_read_keeps_a_record() {
    let mut set = LastSeenSet::<u32, u32>::new(2);
    set.insert(0);
    set.insert(1);
    set.get(&0);
    set.insert(2);
    assert!(set.get(&1).is_none());
    assert!(matches!(set.get(&0), Some(&0)));
    assert!(matches!(set.get(&2), Some(&2)));
}
