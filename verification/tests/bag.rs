use uka::util::bag::OrderedBag;

#[test]
fn test_ordered_bag_get() {
    let bag = OrderedBag::from(vec![
        ("key1", "value1"),
        ("key2", "value2"),
        ("key1", "value3"),
    ]);

    assert_eq!(bag.get(&"key1"), Some(&"value1"));
    assert_eq!(bag.get(&"key2"), Some(&"value2"));
}

#[test]
fn test_ordered_bag_get_with_nonexistent_key() {
    let bag = OrderedBag::from(vec![
        ("key1", "value1"),
        ("key2", "value2"),
        ("key1", "value3"),
    ]);

    assert_eq!(bag.get(&"key3"), None);
}

#[test]
fn test_ordered_bag_get_all() {
    let bag = OrderedBag::from(vec![
        ("key1", "value1"),
        ("key2", "value2"),
        ("key1", "value3"),
    ]);

    assert_eq!(bag.get_all(&"key1"), [&"value1", &"value3"].to_vec());
    assert_eq!(bag.get_all(&"key2"), [&"value2"].to_vec());
}

#[test]
fn test_ordered_bag_get_all_with_nonexistent_key() {
    let bag = OrderedBag::from(vec![
        ("key1", "value1"),
        ("key2", "value2"),
        ("key1", "value3"),
    ]);

    assert!(bag.get_all(&"key3").is_empty());
}

#[test]
fn test_ordered_bag_insert() {
    let mut bag = OrderedBag::new();
    bag.insert("key1", "value1");
    bag.insert("key2", "value2");
    bag.insert("key1", "value3");

    assert_eq!(bag.get(&"key1"), Some(&"value1"));
    assert_eq!(bag.get(&"key2"), Some(&"value2"));
}

#[test]
fn test_ordered_bag_iter() {
    let mut bag = OrderedBag::new();
    bag.insert("key1", "value1");
    bag.insert("key2", "value2");
    bag.insert("key1", "value3");

    let mut iter = bag.iter();
    assert_eq!(iter.next(), Some(&("key1", "value1")));
    assert_eq!(iter.next(), Some(&("key2", "value2")));
    assert_eq!(iter.next(), Some(&("key1", "value3")));
}

#[test]
fn test_ordered_bag_iter_from_vec() {
    let bag = OrderedBag::from(vec![
        ("key1", "value1"),
        ("key2", "value2"),
        ("key1", "value3"),
    ]);

    let mut iter = bag.iter();
    assert_eq!(iter.next(), Some(&("key1", "value1")));
    assert_eq!(iter.next(), Some(&("key2", "value2")));
    assert_eq!(iter.next(), Some(&("key1", "value3")));
    assert!(iter.next().is_none());
}

#[test]
fn test_ordered_bag_into_iter() {
    let mut bag = OrderedBag::new();
    bag.insert("key1", "value1");
    bag.insert("key2", "value2");
    bag.insert("key1", "value3");

    let mut iter = bag.into_iter();
    assert_eq!(iter.next(), Some(("key1", "value1")));
    assert_eq!(iter.next(), Some(("key2", "value2")));
    assert_eq!(iter.next(), Some(("key1", "value3")));
    assert!(iter.next().is_none());
}
