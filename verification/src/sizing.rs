//! The sizing value of a catalog: the number of keys of its longest key
//! combination. Every key row of the presentation is made wide enough for
//! that many keys, so that the descriptions line up.

use crate::catalog::{
    catalog, category_models, get_shortcuts, shortcut_models, well_formed, Category,
    CategoryModel, ShortcutModel,
};
use vstd::prelude::*;

verus! {

/// Where a shortcut stands in a catalog: shortcut `j` of category `i`.
pub open spec fn in_catalog(catalog: Seq<CategoryModel>, i: int, j: int) -> bool {
    0 <= i < catalog.len() && 0 <= j < catalog[i].shortcuts.len()
}

/// Whether `count` is the maximum, over all shortcuts of all categories, of
/// the number of keys of the shortcut: no shortcut has more keys, and one has
/// exactly as many. Of a catalog that holds no shortcut at all, the maximum
/// is taken to be zero.
pub open spec fn is_max_key_count(catalog: Seq<CategoryModel>, count: nat) -> bool {
    &&& forall|i: int, j: int|
        in_catalog(catalog, i, j) ==> (#[trigger] catalog[i].shortcuts[j]).keys.len() <= count
    &&& {
        ||| exists|i: int, j: int|
            in_catalog(catalog, i, j) && (#[trigger] catalog[i].shortcuts[j]).keys.len() == count
        ||| count == 0 && forall|i: int|
            0 <= i < catalog.len() ==> (#[trigger] catalog[i]).shortcuts.len() == 0
    }
}

/// The larger of two counts.
pub open spec fn larger(a: nat, b: nat) -> nat {
    if a >= b {
        a
    } else {
        b
    }
}

/// The largest number of keys of any one of the shortcuts; zero where there
/// is no shortcut.
pub open spec fn max_keys_among(shortcuts: Seq<ShortcutModel>) -> nat
    decreases shortcuts.len(),
{
    if shortcuts.len() == 0 {
        0
    } else {
        larger(max_keys_among(shortcuts.drop_last()), shortcuts.last().keys.len())
    }
}

/// The largest number of keys of any one shortcut of any category; zero where
/// the catalog holds no shortcut.
pub open spec fn max_key_count(catalog: Seq<CategoryModel>) -> nat
    decreases catalog.len(),
{
    if catalog.len() == 0 {
        0
    } else {
        larger(max_key_count(catalog.drop_last()), max_keys_among(catalog.last().shortcuts))
    }
}

/// No shortcut of the sequence has more keys than `max_keys_among` says, and,
/// unless the sequence is empty, one has exactly as many.
pub proof fn lemma_max_keys_among_is_maximum(shortcuts: Seq<ShortcutModel>)
    ensures
        forall|j: int|
            0 <= j < shortcuts.len() ==> (#[trigger] shortcuts[j]).keys.len() <= max_keys_among(
                shortcuts,
            ),
        shortcuts.len() > 0 ==> exists|j: int|
            0 <= j < shortcuts.len() && (#[trigger] shortcuts[j]).keys.len() == max_keys_among(
                shortcuts,
            ),
        shortcuts.len() == 0 ==> max_keys_among(shortcuts) == 0,
    decreases shortcuts.len(),
{
    if shortcuts.len() > 0 {
        let front = shortcuts.drop_last();
        lemma_max_keys_among_is_maximum(front);
        assert forall|j: int| 0 <= j < shortcuts.len() implies (#[trigger] shortcuts[j]).keys.len()
            <= max_keys_among(shortcuts) by {
            if j < front.len() {
                assert(front[j] == shortcuts[j]);
            }
        }
        if max_keys_among(shortcuts) == shortcuts.last().keys.len() {
            assert(shortcuts[shortcuts.len() - 1].keys.len() == max_keys_among(shortcuts));
        } else {
            let j = choose|j: int|
                0 <= j < front.len() && (#[trigger] front[j]).keys.len() == max_keys_among(front);
            assert(shortcuts[j].keys.len() == max_keys_among(shortcuts));
        }
    }
}

/// `max_key_count` is the maximum, over all shortcuts of all categories, of
/// the number of keys of the shortcut.
pub proof fn lemma_max_key_count_is_maximum(catalog: Seq<CategoryModel>)
    ensures
        is_max_key_count(catalog, max_key_count(catalog)),
    decreases catalog.len(),
{
    if catalog.len() > 0 {
        let front = catalog.drop_last();
        let last = catalog.last();
        let count = max_key_count(catalog);
        lemma_max_key_count_is_maximum(front);
        lemma_max_keys_among_is_maximum(last.shortcuts);
        assert forall|i: int, j: int| in_catalog(catalog, i, j) implies (
        #[trigger] catalog[i].shortcuts[j]).keys.len() <= count by {
            if i < front.len() {
                assert(front[i] == catalog[i]);
                assert(in_catalog(front, i, j));
            }
        }
        if last.shortcuts.len() > 0 && count == max_keys_among(last.shortcuts) {
            let j = choose|j: int|
                0 <= j < last.shortcuts.len() && (#[trigger] last.shortcuts[j]).keys.len()
                    == max_keys_among(last.shortcuts);
            let i = catalog.len() - 1;
            assert(in_catalog(catalog, i, j));
            assert(catalog[i].shortcuts[j].keys.len() == count);
        } else if exists|i: int, j: int|
            in_catalog(front, i, j) && (#[trigger] front[i].shortcuts[j]).keys.len()
                == max_key_count(front) {
            let (i, j) = choose|i: int, j: int|
                in_catalog(front, i, j) && (#[trigger] front[i].shortcuts[j]).keys.len()
                    == max_key_count(front);
            assert(front[i] == catalog[i]);
            assert(in_catalog(catalog, i, j));
            assert(catalog[i].shortcuts[j].keys.len() == count);
        } else {
            assert forall|i: int| 0 <= i < catalog.len() implies (
            #[trigger] catalog[i]).shortcuts.len() == 0 by {
                if i < front.len() {
                    assert(front[i] == catalog[i]);
                }
            }
        }
    }
}

/// A catalog has one maximum only: a count that no shortcut exceeds and that
/// one shortcut reaches, or that is zero where there is no shortcut, is the
/// `max_key_count` of the catalog.
pub proof fn lemma_max_key_count_is_unique(catalog: Seq<CategoryModel>, count: nat)
    requires
        is_max_key_count(catalog, count),
    ensures
        count == max_key_count(catalog),
{
    lemma_max_key_count_is_maximum(catalog);
}

/// The longest key combination of the built-in catalog has six keys. It is
/// that of "Move window".
pub proof fn lemma_catalog_max_keys()
    ensures
        max_key_count(catalog()) == 6,
        in_catalog(catalog(), 1, 5),
        catalog()[1].shortcuts[5].description == "Move window"@,
        catalog()[1].shortcuts[5].keys.len() == 6,
{
    let catalog = catalog();
    assert forall|i: int, j: int| in_catalog(catalog, i, j) implies (
    #[trigger] catalog[i].shortcuts[j]).keys.len() <= 6 by {}
    assert(in_catalog(catalog, 1, 5));
    assert(catalog[1].shortcuts[5].keys.len() == 6);
    lemma_max_key_count_is_unique(catalog, 6);
}

/// The first `k + 1` categories of a catalog are well formed where the first
/// `k` are and category `k` is, with all its shortcuts.
proof fn lemma_well_formed_one_more(catalog: Seq<CategoryModel>, k: int)
    requires
        0 <= k < catalog.len(),
        well_formed(catalog.take(k)),
        catalog[k].wf(),
        forall|l: int|
            0 <= l < catalog[k].shortcuts.len() ==> (#[trigger] catalog[k].shortcuts[l]).wf(),
    ensures
        well_formed(catalog.take(k + 1)),
{
    let front = catalog.take(k);
    let longer = catalog.take(k + 1);
    assert forall|i: int| 0 <= i < longer.len() implies (#[trigger] longer[i]).wf() by {
        if i < k {
            assert(front[i] == longer[i]);
        }
    }
    assert forall|i: int, j: int|
        0 <= i < longer.len() && 0 <= j < longer[i].shortcuts.len() implies (
    #[trigger] longer[i].shortcuts[j]).wf() by {
        if i < k {
            assert(front[i] == longer[i]);
            assert(front[i].shortcuts[j].wf());
        }
    }
}

/// The largest number of keys of any one shortcut of the given categories;
/// zero where there is no category. Every shortcut is looked at once, and
/// each is found to have a key, each category to have a name and a shortcut:
/// so the count is zero for the empty catalog only.
pub fn max_keys_of(categories: &[Category]) -> (max_keys: usize)
    ensures
        max_keys == max_key_count(category_models(categories@)),
        is_max_key_count(category_models(categories@), max_keys as nat),
        well_formed(category_models(categories@)),
        max_keys == 0 <==> categories@.len() == 0,
{
    let ghost models = category_models(categories@);
    let mut max_keys: usize = 0;
    let mut i: usize = 0;
    while i < categories.len()
        invariant
            i <= categories@.len(),
            models == category_models(categories@),
            max_keys == max_key_count(models.take(i as int)),
            well_formed(models.take(i as int)),
            i > 0 ==> max_keys > 0,
        decreases categories@.len() - i,
    {
        let shortcuts = categories[i].shortcuts();
        let ghost entries = models[i as int].shortcuts;
        let mut j: usize = 0;
        while j < shortcuts.len()
            invariant
                j <= shortcuts@.len(),
                entries == shortcut_models(shortcuts@),
                max_keys == larger(
                    max_key_count(models.take(i as int)),
                    max_keys_among(entries.take(j as int)),
                ),
                forall|k: int| 0 <= k < j ==> (#[trigger] entries[k]).wf(),
                j > 0 ==> max_keys > 0,
            decreases shortcuts@.len() - j,
        {
            let count = shortcuts[j].key_count();
            proof {
                assert(entries.take(j + 1).drop_last() =~= entries.take(j as int));
            }
            if count > max_keys {
                max_keys = count;
            }
            j += 1;
        }
        proof {
            assert(entries.take(j as int) =~= entries);
            assert(models.take(i + 1).drop_last() =~= models.take(i as int));
            lemma_well_formed_one_more(models, i as int);
        }
        i += 1;
    }
    proof {
        assert(models.take(i as int) =~= models);
        lemma_max_key_count_is_maximum(models);
    }
    max_keys
}

/// The number of keys of the longest key combination of the built-in
/// catalog.
pub fn get_max_keys() -> (max_keys: usize)
    ensures
        max_keys == max_key_count(catalog()),
        max_keys == 6,
{
    proof {
        lemma_catalog_max_keys();
    }
    let categories = get_shortcuts();
    max_keys_of(categories.as_slice())
}

} // verus!
