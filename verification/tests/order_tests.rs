use pants_store::order::{compare_keys, find_slot, KeyOrder};

#[test]
fn compare_keys_orders_as_strings_do() {
    let samples = ["", "a", "ab", "b", "B", "é", "e", "日本", "zz", "a\u{10000}", "a\u{ffff}"];
    for a in samples {
        for b in samples {
            let expected = if a < b {
                KeyOrder::Before
            } else if a == b {
                KeyOrder::Same
            } else {
                KeyOrder::After
            };
            assert_eq!(compare_keys(&a.to_string(), &b.to_string()), expected);
        }
    }
}

#[test]
fn a_proper_prefix_comes_first() {
    assert_eq!(compare_keys(&"bank".to_string(), &"banker".to_string()), KeyOrder::Before);
    assert_eq!(compare_keys(&"banker".to_string(), &"bank".to_string()), KeyOrder::After);
}

#[test]
fn find_slot_counts_the_keys_before() {
    let items = vec![
        ("b".to_string(), 1u8),
        ("d".to_string(), 2u8),
        ("f".to_string(), 3u8),
    ];
    assert_eq!(find_slot(&items, &"a".to_string()), (0, false));
    assert_eq!(find_slot(&items, &"b".to_string()), (0, true));
    assert_eq!(find_slot(&items, &"c".to_string()), (1, false));
    assert_eq!(find_slot(&items, &"f".to_string()), (2, true));
    assert_eq!(find_slot(&items, &"g".to_string()), (3, false));
}
