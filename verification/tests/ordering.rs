use simon::settings::{sort_settings, str_le, TabSettings};

fn settings(name: &str, priority: usize) -> TabSettings {
    TabSettings {
        name: String::from(name),
        kind: String::from("text"),
        priority,
        media_dirs: None,
        media_types: None,
        subs_dirs: None,
        subs_types: None,
        command: None,
        base_color: None,
        highlight_color: None,
    }
}

fn names(v: &[TabSettings]) -> Vec<&str> {
    v.iter().map(|s| s.name.as_str()).collect()
}

#[test]
fn character_order_is_decided_by_the_first_difference() {
    assert!(str_le("abc", "abd"));
    assert!(!str_le("abd", "abc"));
    assert!(str_le("abc", "abc"));
}

#[test]
fn a_prefix_comes_before_its_extensions() {
    assert!(str_le("ab", "abc"));
    assert!(!str_le("abc", "ab"));
    assert!(str_le("", "a"));
}

#[test]
fn character_order_is_by_scalar_value_not_by_case() {
    assert!(str_le("Zoo", "ant"));
    assert!(!str_le("ant", "Zoo"));
}

#[test]
fn descriptors_compare_equal_by_priority_alone() {
    assert!(settings("a", 3) == settings("b", 3));
    assert!(settings("a", 3) != settings("a", 4));
}

#[test]
fn le_orders_by_priority_then_name() {
    assert!(settings("b", 1).le(&settings("a", 2)));
    assert!(!settings("a", 2).le(&settings("b", 1)));
    assert!(settings("a", 2).le(&settings("b", 2)));
    assert!(!settings("b", 2).le(&settings("a", 2)));
}

#[test]
fn sorting_orders_by_priority_with_ties_broken_by_name() {
    let sorted = sort_settings(vec![
        settings("b", 2),
        settings("c", 1),
        settings("a", 1),
    ]);
    assert_eq!(names(&sorted), vec!["a", "c", "b"]);
}

#[test]
fn sorting_keeps_every_descriptor() {
    let sorted = sort_settings(vec![
        settings("x", 5),
        settings("x", 5),
        settings("y", 4),
    ]);
    assert_eq!(names(&sorted), vec!["y", "x", "x"]);
    assert_eq!(sorted[1].priority, 5);
    assert_eq!(sorted[2].priority, 5);
}

#[test]
fn sorting_an_empty_batch_yields_an_empty_batch() {
    let sorted = sort_settings(Vec::new());
    assert!(sorted.is_empty());
}
