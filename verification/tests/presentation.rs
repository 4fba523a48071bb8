use shell_shortcuts::{
    get_shortcuts, render_categories, render_keys, render_shortcuts, Category, Shortcut,
    KEY_SLOT_WIDTH,
};

fn labels(keys: &[&str]) -> Vec<String> {
    keys.iter().map(|key| key.to_string()).collect()
}

#[test]
fn key_slot_width_is_sixty() {
    assert_eq!(KEY_SLOT_WIDTH, 60);
}

#[test]
fn key_row_has_a_keycap_for_each_key() {
    let row = render_keys(labels(&["Ctrl", "Super", "↑"]), 6);
    assert_eq!(row.keycaps, labels(&["Ctrl", "Super", "↑"]));
}

#[test]
fn key_row_width_is_sixty_per_slot() {
    assert_eq!(render_keys(labels(&["Super"]), 6).width, 360);
    assert_eq!(render_keys(labels(&["Super"]), 1).width, 60);
    assert_eq!(render_keys(labels(&["Super", "A"]), 4).width, 240);
    assert_eq!(render_keys(labels(&["Super"]), 0).width, 0);
}

#[test]
fn key_row_width_does_not_depend_on_the_keys() {
    let short = render_keys(labels(&["Super"]), 6);
    let long = render_keys(labels(&["Super", "Shift", "←", "↓", "↑", "→"]), 6);
    assert_eq!(short.width, long.width);
}

#[test]
fn key_row_width_of_the_largest_count() {
    let row = render_keys(Vec::new(), usize::MAX);
    assert_eq!(row.width, 60 * (usize::MAX as u128));
    assert!(row.keycaps.is_empty());
}

#[test]
fn empty_catalog_gives_empty_table() {
    let table = render_categories(&[]);
    assert!(table.panels.is_empty());
    assert_eq!(table.max_keys, 0);
}

#[test]
fn table_keeps_category_and_shortcut_order() {
    let categories = vec![
        Category::new(
            "Second comes first",
            vec![
                Shortcut::new("z", &["Z", "Y"]),
                Shortcut::new("a", &["A"]),
                Shortcut::new("m", &["M", "N", "O"]),
            ],
        ),
        Category::new("First comes second", vec![Shortcut::new("b", &["B"])]),
    ];
    let table = render_categories(&categories);
    assert_eq!(table.max_keys, 3);
    assert_eq!(table.panels.len(), 2);
    assert_eq!(table.panels[0].title, "Second comes first");
    assert_eq!(table.panels[1].title, "First comes second");
    let rows = &table.panels[0].rows;
    assert_eq!(rows.len(), 3);
    assert_eq!(rows[0].description, "z");
    assert_eq!(rows[0].keys.keycaps, labels(&["Z", "Y"]));
    assert_eq!(rows[1].description, "a");
    assert_eq!(rows[1].keys.keycaps, labels(&["A"]));
    assert_eq!(rows[2].description, "m");
    assert_eq!(rows[2].keys.keycaps, labels(&["M", "N", "O"]));
    let rows = &table.panels[1].rows;
    assert_eq!(rows.len(), 1);
    assert_eq!(rows[0].description, "b");
    assert_eq!(rows[0].keys.keycaps, labels(&["B"]));
}

#[test]
fn table_rows_share_one_width() {
    let categories = vec![
        Category::new("x", vec![Shortcut::new("a", &["1"]), Shortcut::new("b", &["1", "2"])]),
        Category::new("y", vec![Shortcut::new("c", &["1", "2", "3", "4"])]),
    ];
    let table = render_categories(&categories);
    assert_eq!(table.max_keys, 4);
    for panel in &table.panels {
        for row in &panel.rows {
            assert_eq!(row.keys.width, 240);
        }
    }
}

#[test]
fn builtin_table_matches_the_catalog() {
    let catalog = get_shortcuts();
    let table = render_shortcuts();
    assert_eq!(table.max_keys, 6);
    assert_eq!(table.panels.len(), catalog.len());
    for (panel, category) in table.panels.iter().zip(catalog.iter()) {
        assert_eq!(panel.title, category.name());
        assert_eq!(panel.rows.len(), category.shortcuts().len());
        for (row, shortcut) in panel.rows.iter().zip(category.shortcuts().iter()) {
            assert_eq!(row.description, shortcut.description());
            assert_eq!(row.keys.keycaps, shortcut.display_keys());
            assert!(!row.keys.keycaps.is_empty());
            assert_eq!(row.keys.width, 360);
            assert!(60 * (row.keys.keycaps.len() as u128) <= row.keys.width);
        }
    }
}

#[test]
fn builtin_table_spot_checks() {
    let table = render_shortcuts();
    assert_eq!(table.panels[0].title, "Launcher Shortcuts");
    assert_eq!(table.panels[0].rows[0].description, "Activate Launcher");
    assert_eq!(table.panels[0].rows[0].keys.keycaps, labels(&["Super"]));
    assert_eq!(table.panels[0].rows[10].description, "Launch this overview");
    assert_eq!(table.panels[1].title, "Window & Workspace Management Shortcuts");
    assert_eq!(table.panels[1].rows[5].description, "Move window");
    assert_eq!(
        table.panels[1].rows[5].keys.keycaps,
        labels(&["Super", "Shift", "←", "↓", "↑", "→"])
    );
    assert_eq!(table.panels[1].rows[19].description, "Resize window outward (bigger)");
    assert_eq!(table.panels[1].rows[19].keys.keycaps, labels(&["Super", "R"]));
}

#[test]
fn render_categories_agrees_with_render_shortcuts() {
    let table = render_categories(&get_shortcuts());
    assert_eq!(format!("{:?}", table), format!("{:?}", render_shortcuts()));
}
