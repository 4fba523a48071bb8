//! The shortcut catalog: categories of shortcuts, each shortcut a description
//! and the keys that trigger it, in the order in which they are pressed.

use vstd::prelude::*;

verus! {

/// What a [`Shortcut`] stands for: its description and its key labels, in
/// display order.
#[verifier::ext_equal]
pub struct ShortcutModel {
    pub description: Seq<char>,
    pub keys: Seq<Seq<char>>,
}

impl ShortcutModel {
    /// A shortcut is triggered by at least one key.
    pub open spec fn wf(self) -> bool {
        self.keys.len() > 0
    }
}

/// What a [`Category`] stands for: its name and its shortcuts, in display
/// order.
#[verifier::ext_equal]
pub struct CategoryModel {
    pub name: Seq<char>,
    pub shortcuts: Seq<ShortcutModel>,
}

impl CategoryModel {
    /// A category has a name and holds at least one shortcut.
    pub open spec fn wf(self) -> bool {
        self.name.len() > 0 && self.shortcuts.len() > 0
    }
}

/// A catalog in which every category has a name and at least one shortcut,
/// and every shortcut at least one key.
pub open spec fn well_formed(catalog: Seq<CategoryModel>) -> bool {
    &&& forall|i: int| 0 <= i < catalog.len() ==> (#[trigger] catalog[i]).wf()
    &&& forall|i: int, j: int|
        0 <= i < catalog.len() && 0 <= j < catalog[i].shortcuts.len() ==> (
        #[trigger] catalog[i].shortcuts[j]).wf()
}

/// The models of a sequence of shortcuts, one for one.
pub open spec fn shortcut_models(shortcuts: Seq<Shortcut>) -> Seq<ShortcutModel> {
    Seq::new(shortcuts.len(), |j: int| shortcuts[j]@)
}

/// The models of a sequence of categories, one for one.
pub open spec fn category_models(categories: Seq<Category>) -> Seq<CategoryModel> {
    Seq::new(categories.len(), |i: int| categories[i]@)
}

/// A named action and the key combination that triggers it.
///
/// Every value holds at least one key label: the constructors see to it, and
/// nothing changes a shortcut after it is made.
#[derive(Debug)]
pub struct Shortcut {
    description: String,
    keys: Vec<String>,
}

impl View for Shortcut {
    type V = ShortcutModel;

    closed spec fn view(&self) -> ShortcutModel {
        ShortcutModel { description: self.description@, keys: self.keys.deep_view() }
    }
}

impl Shortcut {
    #[verifier::type_invariant]
    spec fn has_keys(&self) -> bool {
        self.keys@.len() > 0
    }

    /// Makes a shortcut from its description and its key labels, which are
    /// kept in the order given. There has to be at least one key: a caller
    /// that cannot be sure of it uses `try_new`.
    pub fn new(description: &str, keys: &[&str]) -> (shortcut: Self)
        requires
            keys@.len() > 0,
        ensures
            shortcut@.description == description@,
            shortcut@.keys == keys.deep_view(),
            shortcut@.keys.len() == keys@.len(),
    {
        let mut labels: Vec<String> = Vec::new();
        let mut i: usize = 0;
        while i < keys.len()
            invariant
                i <= keys@.len(),
                labels@.len() == i,
                forall|j: int| 0 <= j < i ==> (#[trigger] labels@[j])@ == keys@[j]@,
            decreases keys@.len() - i,
        {
            labels.push(keys[i].to_string());
            i += 1;
        }
        Shortcut { description: description.to_string(), keys: labels }
    }

    /// Makes a shortcut as `new` does, unless there is no key: then there is
    /// no shortcut to make.
    pub fn try_new(description: &str, keys: &[&str]) -> (made: Option<Self>)
        ensures
            keys@.len() == 0 <==> made is None,
            made matches Some(shortcut) ==> shortcut@.description == description@
                && shortcut@.keys == keys.deep_view(),
    {
        if keys.len() == 0 {
            None
        } else {
            Some(Shortcut::new(description, keys))
        }
    }

    /// The description of the action.
    pub fn description(&self) -> (description: &str)
        ensures
            description@ == self@.description,
    {
        self.description.as_str()
    }

    /// The number of keys in the combination. It is at least one.
    pub fn key_count(&self) -> (count: usize)
        ensures
            count == self@.keys.len(),
            count > 0,
            self@.wf(),
    {
        proof {
            use_type_invariant(self);
        }
        self.keys.len()
    }

    /// The key labels, in display order. There is at least one.
    pub fn display_keys(&self) -> (keys: Vec<String>)
        ensures
            keys.deep_view() == self@.keys,
            keys@.len() == self@.keys.len(),
            keys@.len() > 0,
            self@.wf(),
    {
        proof {
            use_type_invariant(self);
        }
        self.keys.clone()
    }
}

impl Clone for Shortcut {
    fn clone(&self) -> (copy: Self)
        ensures
            copy@ == self@,
    {
        Shortcut { description: self.description.clone(), keys: self.display_keys() }
    }
}

/// A named group of related shortcuts.
///
/// Every value has a name that is not empty and holds at least one shortcut:
/// the constructors see to it, and nothing changes a category after it is
/// made.
#[derive(Debug)]
pub struct Category {
    name: String,
    shortcuts: Vec<Shortcut>,
}

impl View for Category {
    type V = CategoryModel;

    closed spec fn view(&self) -> CategoryModel {
        CategoryModel { name: self.name@, shortcuts: shortcut_models(self.shortcuts@) }
    }
}

impl Category {
    #[verifier::type_invariant]
    spec fn is_filled(&self) -> bool {
        self.name@.len() > 0 && self.shortcuts@.len() > 0
    }

    /// Makes a category from its name and its shortcuts, which are kept in
    /// the order given. The name must not be empty, and there has to be at
    /// least one shortcut: a caller that cannot be sure of it uses `try_new`.
    pub fn new(name: &str, shortcuts: Vec<Shortcut>) -> (category: Self)
        requires
            name@.len() > 0,
            shortcuts@.len() > 0,
        ensures
            category@.name == name@,
            category@.shortcuts == shortcut_models(shortcuts@),
            category@.shortcuts.len() == shortcuts@.len(),
    {
        Category { name: name.to_string(), shortcuts }
    }

    /// Makes a category as `new` does, unless the name is empty or there is
    /// no shortcut: then there is no category to make.
    pub fn try_new(name: &str, shortcuts: Vec<Shortcut>) -> (made: Option<Self>)
        ensures
            (name@.len() == 0 || shortcuts@.len() == 0) <==> made is None,
            made matches Some(category) ==> category@.name == name@ && category@.shortcuts
                == shortcut_models(shortcuts@),
    {
        if name.is_empty() || shortcuts.len() == 0 {
            None
        } else {
            Some(Category::new(name, shortcuts))
        }
    }

    /// The name of the category. It is not empty.
    pub fn name(&self) -> (name: &str)
        ensures
            name@ == self@.name,
            name@.len() > 0,
            self@.wf(),
    {
        proof {
            use_type_invariant(self);
        }
        self.name.as_str()
    }

    /// The shortcuts of the category, in display order. There is at least
    /// one.
    pub fn shortcuts(&self) -> (shortcuts: &Vec<Shortcut>)
        ensures
            shortcut_models(shortcuts@) == self@.shortcuts,
            shortcuts@.len() == self@.shortcuts.len(),
            shortcuts@.len() > 0,
            self@.wf(),
    {
        proof {
            use_type_invariant(self);
        }
        &self.shortcuts
    }
}

impl Clone for Category {
    fn clone(&self) -> (copy: Self)
        ensures
            copy@ == self@,
    {
        proof {
            use_type_invariant(self);
        }
        let shortcuts = self.shortcuts.clone();
        Category { name: self.name.clone(), shortcuts }
    }
}

/// The model of a shortcut with the given description and key labels.
pub open spec fn entry(description: Seq<char>, keys: Seq<Seq<char>>) -> ShortcutModel {
    ShortcutModel { description, keys }
}

/// The shortcuts of the application launcher.
pub open spec fn launcher_category() -> CategoryModel {
    CategoryModel {
        name: "Launcher Shortcuts"@,
        shortcuts: seq![
            entry("Activate Launcher"@, seq!["Super"@]),
            entry("Scroll through the Launcher list"@, seq!["↑"@, "↓"@]),
            entry("Execute a command in a terminal"@, seq!["t:"@]),
            entry("Execute a command in sh"@, seq![":"@]),
            entry("Calculate an equation"@, seq!["="@]),
            entry("Show all Applications"@, seq!["Super"@, "A"@]),
            entry("Launch Terminal"@, seq!["Super"@, "T"@]),
            entry("Launch Browser"@, seq!["Super"@, "B"@]),
            entry("Launch File Manager"@, seq!["Super"@, "E"@]),
            entry("Launch Text Editor"@, seq!["Super"@, "F"@]),
            entry("Launch this overview"@, seq!["Super"@, "Z"@]),
        ],
    }
}

/// The shortcuts that manage windows and workspaces.
pub open spec fn window_category() -> CategoryModel {
    CategoryModel {
        name: "Window & Workspace Management Shortcuts"@,
        shortcuts: seq![
            entry("Show Workspace overview"@, seq!["Super"@, "Tab"@]),
            entry("Switch between open windows"@, seq!["Alt"@, "Tab"@]),
            entry("Switch focus to the workspace above"@, seq!["Ctrl"@, "Super"@, "↑"@]),
            entry("Switch focus to the workspace below"@, seq!["Ctrl"@, "Super"@, "↓"@]),
            entry("Switch focus between windows"@, seq!["Super"@, "←"@, "↓"@, "↑"@, "→"@]),
            entry("Move window"@, seq!["Super"@, "Shift"@, "←"@, "↓"@, "↑"@, "→"@]),
            entry("Move window up one workspace"@, seq!["Ctrl"@, "Super"@, "Shift"@, "↑"@]),
            entry("Move window down one workspace"@, seq!["Ctrl"@, "Super"@, "Shift"@, "↓"@]),
            entry(
                "Move window one monitor to the left"@,
                seq!["Ctrl"@, "Super"@, "Shift"@, "←"@],
            ),
            entry(
                "Move window to one monitor to the right"@,
                seq!["Ctrl"@, "Super"@, "Shift"@, "→"@],
            ),
            entry("Swap windows (keep pressed, then use arrow keys)"@, seq!["Super"@, "X"@]),
            entry("Toggle window orientation"@, seq!["Super"@, "O"@]),
            entry("Toggle floating mode"@, seq!["Super"@, "G"@]),
            entry("Toggle auto-tiling"@, seq!["Super"@, "Y"@]),
            entry("Toggle stacking mode"@, seq!["Super"@, "S"@]),
            entry("Toggle maximize"@, seq!["Super"@, "M"@]),
            entry("Close window"@, seq!["Super"@, "Q"@]),
            entry("Hide current window"@, seq!["Super"@, "H"@]),
            entry("Resize window inward (smaller)"@, seq!["Super"@, "Shift"@, "R"@]),
            entry("Resize window outward (bigger)"@, seq!["Super"@, "R"@]),
        ],
    }
}

/// The built-in catalog: the launcher shortcuts, then those for windows and
/// workspaces.
pub open spec fn catalog() -> Seq<CategoryModel> {
    seq![launcher_category(), window_category()]
}

/// Every category of the built-in catalog has a name that is not empty and
/// holds at least one shortcut, and every shortcut of the catalog has at least
/// one key.
pub proof fn lemma_catalog_is_well_formed()
    ensures
        well_formed(catalog()),
{
    reveal_strlit("Launcher Shortcuts");
    reveal_strlit("Window & Workspace Management Shortcuts");
}

/// The built-in catalog, made anew on each call.
pub fn get_shortcuts() -> (categories: Vec<Category>)
    ensures
        category_models(categories@) == catalog(),
        categories@.len() == 2,
        well_formed(category_models(categories@)),
{
    proof {
        reveal_strlit("Launcher Shortcuts");
        reveal_strlit("Window & Workspace Management Shortcuts");
        lemma_catalog_is_well_formed();
    }
    let launcher = vec![
        Shortcut::new("Activate Launcher", &["Super"]),
        Shortcut::new("Scroll through the Launcher list", &["↑", "↓"]),
        Shortcut::new("Execute a command in a terminal", &["t:"]),
        Shortcut::new("Execute a command in sh", &[":"]),
        Shortcut::new("Calculate an equation", &["="]),
        Shortcut::new("Show all Applications", &["Super", "A"]),
        Shortcut::new("Launch Terminal", &["Super", "T"]),
        Shortcut::new("Launch Browser", &["Super", "B"]),
        Shortcut::new("Launch File Manager", &["Super", "E"]),
        Shortcut::new("Launch Text Editor", &["Super", "F"]),
        Shortcut::new("Launch this overview", &["Super", "Z"]),
    ];
    assert(shortcut_models(launcher@) =~~= launcher_category().shortcuts);
    let window = vec![
        Shortcut::new("Show Workspace overview", &["Super", "Tab"]),
        Shortcut::new("Switch between open windows", &["Alt", "Tab"]),
        Shortcut::new("Switch focus to the workspace above", &["Ctrl", "Super", "↑"]),
        Shortcut::new("Switch focus to the workspace below", &["Ctrl", "Super", "↓"]),
        Shortcut::new("Switch focus between windows", &["Super", "←", "↓", "↑", "→"]),
        Shortcut::new("Move window", &["Super", "Shift", "←", "↓", "↑", "→"]),
        Shortcut::new("Move window up one workspace", &["Ctrl", "Super", "Shift", "↑"]),
        Shortcut::new("Move window down one workspace", &["Ctrl", "Super", "Shift", "↓"]),
        Shortcut::new("Move window one monitor to the left", &["Ctrl", "Super", "Shift", "←"]),
        Shortcut::new(
            "Move window to one monitor to the right",
            &["Ctrl", "Super", "Shift", "→"],
        ),
        Shortcut::new("Swap windows (keep pressed, then use arrow keys)", &["Super", "X"]),
        Shortcut::new("Toggle window orientation", &["Super", "O"]),
        Shortcut::new("Toggle floating mode", &["Super", "G"]),
        Shortcut::new("Toggle auto-tiling", &["Super", "Y"]),
        Shortcut::new("Toggle stacking mode", &["Super", "S"]),
        Shortcut::new("Toggle maximize", &["Super", "M"]),
        Shortcut::new("Close window", &["Super", "Q"]),
        Shortcut::new("Hide current window", &["Super", "H"]),
        Shortcut::new("Resize window inward (smaller)", &["Super", "Shift", "R"]),
        Shortcut::new("Resize window outward (bigger)", &["Super", "R"]),
    ];
    assert(shortcut_models(window@) =~~= window_category().shortcuts);
    let categories = vec![
        Category::new("Launcher Shortcuts", launcher),
        Category::new("Window & Workspace Management Shortcuts", window),
    ];
    categories
}

} // verus!
