use cygnus::lower_bound_map::LowerBoundMap;

#[test]
fn _should_return_none_on_empty_map() {
    let lbm: LowerBoundMap<usize> = LowerBoundMap::new();
    assert_eq!(lbm.get(&42), None);
}

#[test]
fn _should_return_value_if_key_exists() {
    let lbm = LowerBoundMap::from_entries(vec![
        (12, "A cool number"),
        (42, "The answer to everything"),
        (9001, "IT'S OVER 9000!!!"),
    ]);
    assert_eq!(lbm.get(&12), Some(&"A cool number"));
    assert_eq!(lbm.get(&42), Some(&"The answer to everything"));
    assert_eq!(lbm.get(&9001), Some(&"IT'S OVER 9000!!!"));
}

#[test]
fn _should_return_the_next_value_lower_than_key_if_key_does_not_exist() {
    let lbm = LowerBoundMap::from_entries(vec![(3, "Three"), (7, "Seven"), (12, "Twelve")]);
    assert_eq!(lbm.get(&5), Some(&"Three"));
    assert_eq!(lbm.get(&10), Some(&"Seven"));
    assert_eq!(lbm.get(&490), Some(&"Twelve"));
}

#[test]
fn _should_return_none_if_no_lower_key_exists() {
    let lbm = LowerBoundMap::from_entries(vec![(7, "prime"), (11, "also prime")]);
    assert_eq!(lbm.get(&3), None);
    assert_eq!(lbm.get(&6), None);
}

#[test]
fn inserting_an_existing_key_overwrites_it() {
    let mut lbm = LowerBoundMap::new();
    lbm.insert(10, "ten");
    lbm.insert(-5, "minus five");
    lbm.insert(10, "TEN");
    assert_eq!(lbm.get(&10), Some(&"TEN"));
    assert_eq!(lbm.get(&9), Some(&"minus five"));
    assert_eq!(lbm.get(&-6), None);
    let unordered = LowerBoundMap::from_entries(vec![(30, 3), (10, 1), (20, 2), (10, 4)]);
    assert_eq!(unordered.get(&15), Some(&4));
    assert_eq!(unordered.get(&29), Some(&2));
}
