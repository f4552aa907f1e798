use edgehog_device_runtime::data::AstarteType;
use edgehog_device_runtime::string_map::StringMap;
use edgehog_device_runtime::text::{decimal_text, join, same_text, signed_decimal_text};

#[test]
fn numbers_are_written_in_decimal() {
    for number in [0u64, 9, 10, 65535, 1234567890, u64::MAX] {
        assert_eq!(decimal_text(number), number.to_string());
    }
    for number in [0i32, -1, 42, i32::MIN, i32::MAX] {
        assert_eq!(signed_decimal_text(number), number.to_string());
    }
}

#[test]
fn texts_are_joined_and_compared() {
    assert_eq!(join("a\u{e9}", "b"), "a\u{e9}b");
    assert!(same_text("abc", "abc"));
    assert!(!same_text("abc", "abd"));
    assert!(!same_text("abc", "ab"));
}

#[test]
fn maps_hold_one_value_for_a_key() {
    let mut map = StringMap::new();
    assert_eq!(map.insert("a".to_string(), 1), None);
    assert_eq!(map.insert("b".to_string(), 2), None);
    assert_eq!(map.insert("c".to_string(), 3), None);
    assert_eq!(map.insert("a".to_string(), 4), Some(1));
    assert_eq!(map.len(), 3);
    assert_eq!(map.get("a"), Some(&4));
    assert_eq!(map.entry(0), (&"a".to_string(), &4));
    assert_eq!(map.remove("b"), Some(2));
    assert_eq!(map.remove("b"), None);
    assert!(!map.contains_key("b"));
    assert_eq!(map.get("c"), Some(&3));
    assert_eq!(
        map.into_entries(),
        vec![("a".to_string(), 4), ("c".to_string(), 3)]
    );
}

#[test]
fn only_strings_are_text() {
    assert_eq!(
        AstarteType::String("t".to_string()).as_text(),
        Some(&"t".to_string())
    );
    for value in [
        AstarteType::Boolean(true),
        AstarteType::Integer(1),
        AstarteType::LongInteger(1),
        AstarteType::StringArray(vec![]),
        AstarteType::Other,
    ] {
        assert_eq!(value.as_text(), None);
    }
}
