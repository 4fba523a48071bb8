//! The presentation of a catalog: one panel per category, one row per
//! shortcut, one keycap per key, as plain records that a rendering layer turns
//! into widgets. Every key row is given the same width, enough for the longest
//! key combination of the catalog.

use crate::catalog::{
    catalog, category_models, get_shortcuts, shortcut_models, well_formed, Category,
    CategoryModel, ShortcutModel,
};
use crate::sizing::{
    in_catalog, lemma_catalog_max_keys, lemma_max_key_count_is_maximum, max_key_count, max_keys_of,
};
use vstd::prelude::*;

verus! {

/// The width that a key row sets aside for each key of the longest
/// combination.
pub const KEY_SLOT_WIDTH: u128 = 60;

/// What a [`KeyRow`] stands for.
#[verifier::ext_equal]
pub struct KeyRowModel {
    pub keycaps: Seq<Seq<char>>,
    pub width: nat,
}

/// What a [`ShortcutRow`] stands for.
#[verifier::ext_equal]
pub struct ShortcutRowModel {
    pub keys: KeyRowModel,
    pub description: Seq<char>,
}

/// What a [`CategoryPanel`] stands for.
#[verifier::ext_equal]
pub struct CategoryPanelModel {
    pub title: Seq<char>,
    pub rows: Seq<ShortcutRowModel>,
}

impl CategoryPanelModel {
    /// A panel has a title and at least one row, and every row at least one
    /// keycap.
    pub open spec fn wf(self) -> bool {
        &&& self.title.len() > 0
        &&& self.rows.len() > 0
        &&& forall|j: int|
            0 <= j < self.rows.len() ==> (#[trigger] self.rows[j]).keys.keycaps.len() > 0
    }
}

/// What a [`ShortcutTable`] stands for.
#[verifier::ext_equal]
pub struct ShortcutTableModel {
    pub panels: Seq<CategoryPanelModel>,
    pub max_keys: nat,
}

/// The keys of one shortcut, one keycap per key, in a container of fixed
/// width.
#[derive(Debug)]
pub struct KeyRow {
    /// The label of each keycap, in display order.
    pub keycaps: Vec<String>,
    /// The width of the container that holds the keycaps.
    pub width: u128,
}

impl View for KeyRow {
    type V = KeyRowModel;

    open spec fn view(&self) -> KeyRowModel {
        KeyRowModel { keycaps: self.keycaps.deep_view(), width: self.width as nat }
    }
}

impl Clone for KeyRow {
    fn clone(&self) -> (copy: Self)
        ensures
            copy@ == self@,
    {
        KeyRow { keycaps: self.keycaps.clone(), width: self.width }
    }
}

/// One shortcut: its keys, then its description.
#[derive(Debug)]
pub struct ShortcutRow {
    /// The keys that trigger the action.
    pub keys: KeyRow,
    /// The description of the action.
    pub description: String,
}

impl View for ShortcutRow {
    type V = ShortcutRowModel;

    open spec fn view(&self) -> ShortcutRowModel {
        ShortcutRowModel { keys: self.keys@, description: self.description@ }
    }
}

impl Clone for ShortcutRow {
    fn clone(&self) -> (copy: Self)
        ensures
            copy@ == self@,
    {
        ShortcutRow { keys: self.keys.clone(), description: self.description.clone() }
    }
}

/// One category: its name as a header, then a row for each of its shortcuts.
#[derive(Debug)]
pub struct CategoryPanel {
    /// The name of the category.
    pub title: String,
    /// The shortcuts of the category, in its order.
    pub rows: Vec<ShortcutRow>,
}

impl View for CategoryPanel {
    type V = CategoryPanelModel;

    open spec fn view(&self) -> CategoryPanelModel {
        CategoryPanelModel { title: self.title@, rows: row_models(self.rows@) }
    }
}

impl Clone for CategoryPanel {
    fn clone(&self) -> (copy: Self)
        ensures
            copy@ == self@,
    {
        CategoryPanel { title: self.title.clone(), rows: self.rows.clone() }
    }
}

/// A whole catalog: a panel for each category, and the number of keys that
/// every key row makes room for.
#[derive(Debug)]
pub struct ShortcutTable {
    /// The categories, in the order of the catalog.
    pub panels: Vec<CategoryPanel>,
    /// The number of keys of the longest key combination of the catalog.
    pub max_keys: usize,
}

impl View for ShortcutTable {
    type V = ShortcutTableModel;

    open spec fn view(&self) -> ShortcutTableModel {
        ShortcutTableModel { panels: panel_models(self.panels@), max_keys: self.max_keys as nat }
    }
}

impl Clone for ShortcutTable {
    fn clone(&self) -> (copy: Self)
        ensures
            copy@ == self@,
    {
        ShortcutTable { panels: self.panels.clone(), max_keys: self.max_keys }
    }
}

/// The models of a sequence of rows, one for one.
pub open spec fn row_models(rows: Seq<ShortcutRow>) -> Seq<ShortcutRowModel> {
    Seq::new(rows.len(), |j: int| rows[j]@)
}

/// The models of a sequence of panels, one for one.
pub open spec fn panel_models(panels: Seq<CategoryPanel>) -> Seq<CategoryPanelModel> {
    Seq::new(panels.len(), |i: int| panels[i]@)
}

/// The key row of a shortcut with the given key labels, wide enough for
/// `max_keys` keys.
pub open spec fn key_row(keys: Seq<Seq<char>>, max_keys: nat) -> KeyRowModel {
    KeyRowModel { keycaps: keys, width: KEY_SLOT_WIDTH as nat * max_keys }
}

/// The row of a shortcut: its keys as they stand, and its description.
pub open spec fn shortcut_row(shortcut: ShortcutModel, max_keys: nat) -> ShortcutRowModel {
    ShortcutRowModel {
        keys: key_row(shortcut.keys, max_keys),
        description: shortcut.description,
    }
}

/// The panel of a category: its name, and the rows of its shortcuts in the
/// order of the category.
pub open spec fn category_panel(category: CategoryModel, max_keys: nat) -> CategoryPanelModel {
    CategoryPanelModel {
        title: category.name,
        rows: Seq::new(
            category.shortcuts.len(),
            |j: int| shortcut_row(category.shortcuts[j], max_keys),
        ),
    }
}

/// The presentation of a catalog: the panels of its categories in the order
/// of the catalog, each key row as wide as the longest key combination of
/// the whole catalog needs.
pub open spec fn shortcut_table(catalog: Seq<CategoryModel>) -> ShortcutTableModel {
    ShortcutTableModel {
        panels: Seq::new(
            catalog.len(),
            |i: int| category_panel(catalog[i], max_key_count(catalog)),
        ),
        max_keys: max_key_count(catalog),
    }
}

/// Lays out the keys of one shortcut: a keycap for each label, in the order
/// given, in a container wide enough for `max_keys` keys.
pub fn render_keys(keys: Vec<String>, max_keys: usize) -> (row: KeyRow)
    ensures
        row@ == key_row(keys.deep_view(), max_keys as nat),
        row.keycaps == keys,
        row.width == KEY_SLOT_WIDTH * max_keys,
{
    let width: u128 = KEY_SLOT_WIDTH * (max_keys as u128);
    KeyRow { keycaps: keys, width }
}

/// Lays out the given categories: a panel for each, in the order given, with
/// a row for each of its shortcuts, in the order of the category. The longest
/// key combination is looked for once, and every key row is as wide as it
/// needs.
pub fn render_categories(categories: &[Category]) -> (table: ShortcutTable)
    ensures
        table@ == shortcut_table(category_models(categories@)),
        table.panels@.len() == categories@.len(),
        table.max_keys == max_key_count(category_models(categories@)),
        table.max_keys == 0 <==> categories@.len() == 0,
        forall|i: int| 0 <= i < table@.panels.len() ==> (#[trigger] table@.panels[i]).wf(),
{
    let ghost models = category_models(categories@);
    let max_keys = max_keys_of(categories);
    proof {
        lemma_presentation_is_well_formed(models);
    }
    let mut panels: Vec<CategoryPanel> = Vec::new();
    let mut i: usize = 0;
    while i < categories.len()
        invariant
            i <= categories@.len(),
            models == category_models(categories@),
            max_keys == max_key_count(models),
            panels@.len() == i,
            forall|k: int|
                0 <= k < i ==> (#[trigger] panels@[k])@ == category_panel(
                    models[k],
                    max_keys as nat,
                ),
        decreases categories@.len() - i,
    {
        let category = &categories[i];
        let shortcuts = category.shortcuts();
        let ghost entries = models[i as int].shortcuts;
        let mut rows: Vec<ShortcutRow> = Vec::new();
        let mut j: usize = 0;
        while j < shortcuts.len()
            invariant
                j <= shortcuts@.len(),
                entries == shortcut_models(shortcuts@),
                rows@.len() == j,
                forall|k: int|
                    0 <= k < j ==> (#[trigger] rows@[k])@ == shortcut_row(
                        entries[k],
                        max_keys as nat,
                    ),
            decreases shortcuts@.len() - j,
        {
            let shortcut = &shortcuts[j];
            let keys = render_keys(shortcut.display_keys(), max_keys);
            let description = shortcut.description().to_string();
            rows.push(ShortcutRow { keys, description });
            j += 1;
        }
        panels.push(CategoryPanel { title: category.name().to_string(), rows });
        i += 1;
    }
    ShortcutTable { panels, max_keys }
}

/// Lays out the built-in catalog.
pub fn render_shortcuts() -> (table: ShortcutTable)
    ensures
        table@ == shortcut_table(catalog()),
        table.panels@.len() == 2,
        table.max_keys == 6,
        forall|i: int| 0 <= i < table@.panels.len() ==> (#[trigger] table@.panels[i]).wf(),
{
    proof {
        lemma_catalog_max_keys();
    }
    let categories = get_shortcuts();
    render_categories(categories.as_slice())
}

/// The presentation keeps the order of the catalog from end to end: panel
/// `i` is that of category `i` and bears its name, its row `j` is that of
/// shortcut `j` of the category and bears its description, and the keycaps
/// of the row are the key labels of the shortcut, in their order.
pub proof fn lemma_presentation_keeps_order(catalog: Seq<CategoryModel>)
    ensures
        shortcut_table(catalog).panels.len() == catalog.len(),
        forall|i: int|
            0 <= i < catalog.len() ==> {
                let panel = #[trigger] shortcut_table(catalog).panels[i];
                panel.title == catalog[i].name && panel.rows.len() == catalog[i].shortcuts.len()
            },
        forall|i: int, j: int|
            in_catalog(catalog, i, j) ==> {
                let row = #[trigger] shortcut_table(catalog).panels[i].rows[j];
                row.description == catalog[i].shortcuts[j].description && row.keys.keycaps
                    == catalog[i].shortcuts[j].keys
            },
{
}

/// The presentation of a well-formed catalog is well formed: every panel has
/// a title and at least one row, and every row at least one keycap.
pub proof fn lemma_presentation_is_well_formed(catalog: Seq<CategoryModel>)
    requires
        well_formed(catalog),
    ensures
        forall|i: int|
            0 <= i < catalog.len() ==> (#[trigger] shortcut_table(catalog).panels[i]).wf(),
{
}

/// Every key row of a presentation has the same width, and no row holds
/// more keycaps than its width makes room for.
pub proof fn lemma_key_rows_are_uniform(catalog: Seq<CategoryModel>)
    ensures
        forall|i: int, j: int|
            in_catalog(catalog, i, j) ==> {
                let row = #[trigger] shortcut_table(catalog).panels[i].rows[j];
                row.keys.width == KEY_SLOT_WIDTH * shortcut_table(catalog).max_keys
                    && KEY_SLOT_WIDTH * row.keys.keycaps.len() <= row.keys.width
            },
{
    lemma_max_key_count_is_maximum(catalog);
}

/// The presentation of a catalog without categories has no panel, and its
/// key rows would make room for no key.
pub proof fn lemma_empty_catalog_presentation()
    ensures
        shortcut_table(Seq::empty()).panels == Seq::<CategoryPanelModel>::empty(),
        shortcut_table(Seq::empty()).max_keys == 0,
{
}

} // verus!
