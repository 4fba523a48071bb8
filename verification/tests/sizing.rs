use shell_shortcuts::{get_max_keys, get_shortcuts, max_keys_of, Category, Shortcut};

#[test]
fn builtin_catalog_needs_six_keys() {
    assert_eq!(get_max_keys(), 6);
    assert_eq!(max_keys_of(&get_shortcuts()), 6);
}

#[test]
fn longest_combination_is_move_window() {
    let catalog = get_shortcuts();
    let mut longest: Vec<String> = Vec::new();
    for category in &catalog {
        for shortcut in category.shortcuts() {
            if shortcut.key_count() == 6 {
                longest.push(shortcut.description().to_string());
            }
            assert!(shortcut.key_count() <= 6);
        }
    }
    assert_eq!(longest, vec!["Move window".to_string()]);
    assert_eq!(catalog[1].shortcuts()[4].description(), "Switch focus between windows");
    assert_eq!(catalog[1].shortcuts()[4].key_count(), 5);
}

#[test]
fn max_keys_of_no_category_is_zero() {
    assert_eq!(max_keys_of(&[]), 0);
}

#[test]
fn max_keys_of_one_shortcut() {
    let categories = vec![Category::new("One", vec![Shortcut::new("a", &["A", "B", "C"])])];
    assert_eq!(max_keys_of(&categories), 3);
}

#[test]
fn max_keys_is_found_in_any_place() {
    let first = vec![
        Category::new(
            "x",
            vec![Shortcut::new("a", &["1", "2", "3", "4"]), Shortcut::new("b", &["1"])],
        ),
        Category::new("y", vec![Shortcut::new("c", &["1", "2"])]),
    ];
    assert_eq!(max_keys_of(&first), 4);
    let middle = vec![
        Category::new("x", vec![Shortcut::new("a", &["1"]), Shortcut::new("b", &["1", "2", "3"])]),
        Category::new("y", vec![Shortcut::new("c", &["1", "2"])]),
    ];
    assert_eq!(max_keys_of(&middle), 3);
    let last = vec![
        Category::new("x", vec![Shortcut::new("a", &["1"]), Shortcut::new("b", &["1", "2"])]),
        Category::new(
            "y",
            vec![Shortcut::new("c", &["1"]), Shortcut::new("d", &["1", "2", "3", "4", "5"])],
        ),
    ];
    assert_eq!(max_keys_of(&last), 5);
}

#[test]
fn max_keys_is_zero_for_the_empty_catalog_only() {
    assert_eq!(max_keys_of(&[]), 0);
    let categories = vec![Category::new("x", vec![Shortcut::new("a", &["1"])])];
    assert_eq!(max_keys_of(&categories), 1);
    assert!(max_keys_of(&get_shortcuts()) > 0);
}

#[test]
fn max_keys_with_ties() {
    let categories = vec![
        Category::new("x", vec![Shortcut::new("a", &["1", "2"]), Shortcut::new("b", &["3", "4"])]),
        Category::new("y", vec![Shortcut::new("c", &["5", "6"])]),
    ];
    assert_eq!(max_keys_of(&categories), 2);
}

#[test]
fn max_keys_is_the_maximum_of_the_counts() {
    let categories = get_shortcuts();
    let by_hand = categories
        .iter()
        .flat_map(|category| category.shortcuts().iter())
        .map(|shortcut| shortcut.key_count())
        .max()
        .unwrap_or(0);
    assert_eq!(max_keys_of(&categories), by_hand);
}
