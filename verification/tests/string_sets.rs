use available_range::string_set::StringSet;
use available_range::strings::{order, same, Order};
use std::collections::BTreeSet;

const SAMPLE: [&str; 9] = ["tx", "", "tx_kinds", "Zebra", "tx", "\u{e9}", "zebra", "\u{1f600}", "\u{ffff}"];

fn sample() -> Vec<String> {
    SAMPLE.iter().map(|s| s.to_string()).collect()
}

#[test]
fn strings_are_ordered_by_their_bytes() {
    assert_eq!(order("", ""), Order::Same);
    assert_eq!(order("", "a"), Order::Before);
    assert_eq!(order("ab", "a"), Order::After);
    assert_eq!(order("Zebra", "aardvark"), Order::Before);
    assert_eq!(order("\u{ffff}", "\u{1f600}"), Order::Before);
    for a in SAMPLE {
        for b in SAMPLE {
            assert_eq!(order(a, b) == Order::Before, a < b);
            assert_eq!(order(a, b) == Order::After, a > b);
            assert_eq!(same(a, b), a == b);
        }
    }
}

#[test]
fn members_come_once_and_in_ascending_order() {
    let set = StringSet::from_vec(sample());
    let expected: Vec<String> = BTreeSet::from_iter(sample()).into_iter().collect();
    assert_eq!(set.members(), &expected);
    let mut reversed = sample();
    reversed.reverse();
    assert_eq!(StringSet::from_vec(reversed).members(), &expected);
}

#[test]
fn insert_says_whether_the_string_is_new() {
    let mut set = StringSet::new();
    assert!(set.is_empty());
    assert!(!set.contains("b"));
    assert!(set.insert("b".to_string()));
    assert!(set.insert("a".to_string()));
    assert!(set.insert("c".to_string()));
    assert!(!set.insert("b".to_string()));
    assert!(!set.is_empty());
    assert!(set.contains("a") && set.contains("b") && set.contains("c"));
    assert!(!set.contains("") && !set.contains("bb") && !set.contains("d"));
    assert_eq!(set.members().len(), 3);
}
