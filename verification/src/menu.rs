//! The editor's "add node" menu: node types grouped by category, filtered by a search term and
//! sorted by display name.

use vstd::prelude::*;
use crate::schema::{NodeCategory, NodeDefinition};
use crate::text::{contains_str, contains_text, lowercase, lowercase_of, str_le, text_le, trim, trim_text};

verus! {

/// One menu section: a category label and its node types.
pub struct NodeMenuCategory {
    pub label: &'static str,
    pub definitions: Vec<NodeDefinition>,
}

/// The number of menu sections.
pub const MENU_CATEGORY_COUNT: usize = 8;

/// The label of menu section `k`.
pub open spec fn category_label(k: int) -> Seq<char> {
    if k == 0 {
        "Inputs"@
    } else if k == 1 {
        "Generators"@
    } else if k == 2 {
        "Math"@
    } else if k == 3 {
        "Frame Operations"@
    } else if k == 4 {
        "Temporal Filters"@
    } else if k == 5 {
        "Spatial Filters"@
    } else if k == 6 {
        "Outputs"@
    } else {
        "Debug"@
    }
}

/// The menu section of a category.
pub open spec fn category_index(category: NodeCategory) -> int {
    match category {
        NodeCategory::Inputs => 0,
        NodeCategory::Generators => 1,
        NodeCategory::Math => 2,
        NodeCategory::FrameOperations => 3,
        NodeCategory::TemporalFilters => 4,
        NodeCategory::SpatialFilters => 5,
        NodeCategory::Outputs => 6,
        NodeCategory::Debug => 7,
    }
}

fn section_of(category: NodeCategory) -> (k: usize)
    ensures
        k == category_index(category),
{
    match category {
        NodeCategory::Inputs => 0,
        NodeCategory::Generators => 1,
        NodeCategory::Math => 2,
        NodeCategory::FrameOperations => 3,
        NodeCategory::TemporalFilters => 4,
        NodeCategory::SpatialFilters => 5,
        NodeCategory::Outputs => 6,
        NodeCategory::Debug => 7,
    }
}

fn section_label(k: usize) -> (label: &'static str)
    requires
        k < MENU_CATEGORY_COUNT,
    ensures
        label@ == category_label(k as int),
{
    match k {
        0 => "Inputs",
        1 => "Generators",
        2 => "Math",
        3 => "Frame Operations",
        4 => "Temporal Filters",
        5 => "Spatial Filters",
        6 => "Outputs",
        _ => "Debug",
    }
}

/// The search term as matched: trimmed, then lower-cased; a blank search is the empty term.
pub open spec fn normalized_search(search: Seq<char>) -> Seq<char> {
    if trim_text(search).len() == 0 {
        Seq::empty()
    } else {
        lowercase_of(trim_text(search))
    }
}

/// Whether a node type matches a normalized search term: every node type matches an empty
/// term, else the term must occur in its lower-cased display name or id.
pub open spec fn search_matches(definition: NodeDefinition, term: Seq<char>) -> bool {
    term.len() == 0 || contains_text(lowercase_of(definition.display_name@), term) || contains_text(
        lowercase_of(definition.id@),
        term,
    )
}

/// Whether a node type belongs in menu section `k` for a normalized search term.
pub open spec fn in_section(definition: NodeDefinition, term: Seq<char>, k: int) -> bool {
    search_matches(definition, term) && category_index(definition.category) == k
}

/// The filter of menu section `k`.
pub open spec fn section_filter(term: Seq<char>, k: int) -> spec_fn(NodeDefinition) -> bool {
    |definition: NodeDefinition| in_section(definition, term, k)
}

/// `sorted` with `definition` inserted after every entry whose display name sorts before or
/// with its own.
pub open spec fn insert_by_name(sorted: Seq<NodeDefinition>, definition: NodeDefinition) -> Seq<
    NodeDefinition,
>
    decreases sorted.len(),
{
    if sorted.len() == 0 {
        seq![definition]
    } else if text_le(sorted.last().display_name@, definition.display_name@) {
        sorted.push(definition)
    } else {
        insert_by_name(sorted.drop_last(), definition).push(sorted.last())
    }
}

/// The stable sort of `definitions` by display name.
pub open spec fn sorted_by_name(definitions: Seq<NodeDefinition>) -> Seq<NodeDefinition>
    decreases definitions.len(),
{
    if definitions.len() == 0 {
        definitions
    } else {
        insert_by_name(sorted_by_name(definitions.drop_last()), definitions.last())
    }
}

/// The node types of menu section `k`: those of its category matching the term, sorted by
/// display name.
pub open spec fn section_entries(definitions: Seq<NodeDefinition>, term: Seq<char>, k: int) -> Seq<
    NodeDefinition,
> {
    sorted_by_name(definitions.filter(section_filter(term, k)))
}

/// The menu from section `k` on: each non-empty section as its label and node types.
pub open spec fn menu_from(definitions: Seq<NodeDefinition>, term: Seq<char>, k: nat) -> Seq<
    (Seq<char>, Seq<NodeDefinition>),
>
    decreases MENU_CATEGORY_COUNT - k,
{
    if k >= MENU_CATEGORY_COUNT {
        Seq::empty()
    } else {
        let entries = section_entries(definitions, term, k as int);
        (if entries.len() > 0 {
            seq![(category_label(k as int), entries)]
        } else {
            Seq::empty()
        }) + menu_from(definitions, term, k + 1)
    }
}

/// The sections of a built menu, as labels and node types.
pub open spec fn menu_view(categories: Seq<NodeMenuCategory>) -> Seq<(Seq<char>, Seq<NodeDefinition>)> {
    categories.map_values(|c: NodeMenuCategory| (c.label@, c.definitions@))
}

proof fn lemma_insert_by_name(sorted: Seq<NodeDefinition>, definition: NodeDefinition, j: int)
    requires
        0 <= j <= sorted.len(),
        j > 0 ==> text_le(sorted[j - 1].display_name@, definition.display_name@),
        forall|m: int| j <= m < sorted.len() ==> !text_le(sorted[m].display_name@, definition.display_name@),
    ensures
        insert_by_name(sorted, definition) == sorted.insert(j, definition),
    decreases sorted.len(),
{
    if sorted.len() == 0 {
        assert(sorted.insert(j, definition) =~= seq![definition]);
    } else if j == sorted.len() {
        assert(sorted.insert(j, definition) =~= sorted.push(definition));
    } else {
        let rest = sorted.drop_last();
        assert(!text_le(sorted.last().display_name@, definition.display_name@));
        assert forall|m: int| j <= m < rest.len() implies !text_le(rest[m].display_name@, definition.display_name@) by {
            assert(rest[m] == sorted[m]);
        }
        if j > 0 {
            assert(rest[j - 1] == sorted[j - 1]);
        }
        lemma_insert_by_name(rest, definition, j);
        assert(rest.insert(j, definition).push(sorted.last()) =~= sorted.insert(j, definition));
    }
}

/// Inserts `definition` into `sorted` after every entry whose display name sorts before or with
/// its own.
fn insert_sorted(sorted: &mut Vec<NodeDefinition>, definition: NodeDefinition)
    ensures
        final(sorted)@ == insert_by_name(old(sorted)@, definition),
{
    let mut j: usize = sorted.len();
    while j > 0 && !str_le(sorted[j - 1].display_name.as_str(), definition.display_name.as_str())
        invariant
            j <= sorted@.len(),
            sorted@ == old(sorted)@,
            forall|m: int| j <= m < sorted@.len() ==> !text_le(sorted@[m].display_name@, definition.display_name@),
        decreases j,
    {
        j = j - 1;
    }
    proof {
        lemma_insert_by_name(sorted@, definition, j as int);
    }
    sorted.insert(j, definition);
}

/// Sorts node types by display name, keeping the order of equal names.
fn sort_by_name(definitions: Vec<NodeDefinition>) -> (sorted: Vec<NodeDefinition>)
    ensures
        sorted@ == sorted_by_name(definitions@),
{
    let ghost initial = definitions@;
    let mut rest = definitions;
    let total = rest.len();
    let mut sorted: Vec<NodeDefinition> = Vec::new();
    let mut i: usize = 0;
    assert(initial.take(0) =~= Seq::<NodeDefinition>::empty());
    while rest.len() > 0
        invariant
            i <= initial.len(),
            initial.len() == total,
            rest@ == initial.skip(i as int),
            sorted@ == sorted_by_name(initial.take(i as int)),
        decreases rest@.len(),
    {
        let definition = rest.remove(0);
        assert(initial.take(i + 1).drop_last() =~= initial.take(i as int));
        assert(initial.take(i + 1).last() == definition);
        insert_sorted(&mut sorted, definition);
        assert(rest@ =~= initial.skip(i + 1));
        i = i + 1;
    }
    assert(initial.take(i as int) =~= initial);
    sorted
}

/// Appends a node menu category after sorting its node types by display name; empty categories
/// are left out.
pub fn push_node_menu_category(
    categories: &mut Vec<NodeMenuCategory>,
    label: &'static str,
    definitions: Vec<NodeDefinition>,
)
    ensures
        definitions@.len() == 0 ==> final(categories)@ == old(categories)@,
        definitions@.len() > 0 ==> {
            &&& final(categories)@.len() == old(categories)@.len() + 1
            &&& final(categories)@.drop_last() == old(categories)@
            &&& final(categories)@.last().label == label
            &&& final(categories)@.last().definitions@ == sorted_by_name(definitions@)
        },
{
    if definitions.len() == 0 {
        return;
    }
    let sorted = sort_by_name(definitions);
    let ghost before = categories@;
    categories.push(NodeMenuCategory { label, definitions: sorted });
    assert(categories@.drop_last() =~= before);
}

fn matches_search(definition: &NodeDefinition, term: &str) -> (matches: bool)
    ensures
        matches == search_matches(*definition, term@),
{
    if term.unicode_len() == 0 {
        return true;
    }
    let name = lowercase(definition.display_name.as_str());
    if contains_str(name.as_str(), term) {
        return true;
    }
    let id = lowercase(definition.id.as_str());
    contains_str(id.as_str(), term)
}

/// Groups node types into menu categories and filters them by a search term.
///
/// The term is trimmed and lower-cased; a node type matches when the term is empty or occurs in
/// its lower-cased display name or id. Sections come in a fixed order, each sorted by display
/// name, and empty sections are left out.
pub fn node_menu_categories(definitions: Vec<NodeDefinition>, search: &str) -> (categories: Vec<
    NodeMenuCategory,
>)
    ensures
        menu_view(categories@) == menu_from(definitions@, normalized_search(search@), 0),
{
    let trimmed = trim(search);
    let term = lowercase(trimmed);
    let ghost initial = definitions@;
    let ghost t = term@;
    assert(t =~= normalized_search(search@));
    let mut sections: Vec<Vec<NodeDefinition>> = Vec::new();
    let mut k: usize = 0;
    while k < MENU_CATEGORY_COUNT
        invariant
            k <= MENU_CATEGORY_COUNT,
            sections@.len() == k,
            forall|m: int| 0 <= m < k ==> (#[trigger] sections@[m])@.len() == 0,
        decreases MENU_CATEGORY_COUNT - k,
    {
        sections.push(Vec::new());
        k = k + 1;
    }
    proof {
        reveal(Seq::filter);
        assert forall|m: int| 0 <= m < MENU_CATEGORY_COUNT implies (#[trigger] sections@[m])@
            == initial.take(0).filter(section_filter(t, m)) by {
            assert(initial.take(0).len() == 0);
        }
    }
    let mut rest = definitions;
    let total = rest.len();
    let mut i: usize = 0;
    while rest.len() > 0
        invariant
            i <= initial.len(),
            initial.len() == total,
            rest@ == initial.skip(i as int),
            sections@.len() == MENU_CATEGORY_COUNT,
            t == term@,
            forall|m: int|
                0 <= m < MENU_CATEGORY_COUNT ==> (#[trigger] sections@[m])@ == initial.take(
                    i as int,
                ).filter(section_filter(t, m)),
        decreases rest@.len(),
    {
        let definition = rest.remove(0);
        assert(initial.take(i + 1).drop_last() =~= initial.take(i as int));
        assert(initial.take(i + 1).last() == definition);
        assert(rest@ =~= initial.skip(i + 1));
        let ghost before = sections@;
        if matches_search(&definition, term.as_str()) {
            let k = section_of(definition.category);
            let mut section = sections.remove(k);
            section.push(definition);
            sections.insert(k, section);
            proof {
                reveal(Seq::filter);
                assert forall|m: int| 0 <= m < MENU_CATEGORY_COUNT implies (#[trigger] sections@[m])@
                    == initial.take(i + 1).filter(section_filter(t, m)) by {
                    if m == k {
                        assert(sections@[m] == section);
                    } else {
                        assert(sections@[m] == before[m]);
                    }
                }
            }
        } else {
            proof {
                reveal(Seq::filter);
                assert forall|m: int| 0 <= m < MENU_CATEGORY_COUNT implies (#[trigger] sections@[m])@
                    == initial.take(i + 1).filter(section_filter(t, m)) by {
                    assert(!section_filter(t, m)(definition));
                }
            }
        }
        i = i + 1;
    }
    assert(initial.take(i as int) =~= initial);
    let mut categories: Vec<NodeMenuCategory> = Vec::new();
    let mut k: usize = 0;
    assert(menu_from(initial, t, 0) == menu_view(categories@) + menu_from(initial, t, 0));
    while k < MENU_CATEGORY_COUNT
        invariant
            k <= MENU_CATEGORY_COUNT,
            sections@.len() == MENU_CATEGORY_COUNT - k,
            t == term@,
            forall|m: int|
                0 <= m < MENU_CATEGORY_COUNT - k ==> (#[trigger] sections@[m])@ == initial.filter(
                    section_filter(t, m + k),
                ),
            menu_from(initial, t, 0) == menu_view(categories@) + menu_from(initial, t, k as nat),
        decreases MENU_CATEGORY_COUNT - k,
    {
        let ghost prior = sections@;
        let section = sections.remove(0);
        assert(section@ == initial.filter(section_filter(t, k as int)));
        let ghost before = menu_view(categories@);
        push_node_menu_category(&mut categories, section_label(k), section);
        proof {
            let entries = section_entries(initial, t, k as int);
            if entries.len() > 0 {
                assert(menu_view(categories@) =~= before.push((category_label(k as int), entries)));
            } else {
                assert(menu_view(categories@) =~= before);
            }
            assert(menu_from(initial, t, k as nat) == (if entries.len() > 0 {
                seq![(category_label(k as int), entries)]
            } else {
                Seq::empty()
            }) + menu_from(initial, t, (k + 1) as nat));
            assert forall|m: int| 0 <= m < MENU_CATEGORY_COUNT - (k + 1) implies (#[trigger] sections@[m])@
                == initial.filter(section_filter(t, m + k + 1)) by {
                assert(sections@[m] == prior[m + 1]);
            }
        }
        k = k + 1;
    }
    assert(menu_from(initial, t, MENU_CATEGORY_COUNT as nat) =~= Seq::empty());
    assert(menu_view(categories@) =~= menu_from(initial, t, 0));
    categories
}

proof fn lemma_insert_keeps(sorted: Seq<NodeDefinition>, definition: NodeDefinition, x: NodeDefinition)
    requires
        x == definition || sorted.contains(x),
    ensures
        insert_by_name(sorted, definition).contains(x),
    decreases sorted.len(),
{
    if sorted.len() == 0 {
        assert(seq![definition][0] == definition);
    } else if text_le(sorted.last().display_name@, definition.display_name@) {
        if x == definition {
            assert(sorted.push(definition)[sorted.len() as int] == x);
        } else {
            let i = choose|i: int| 0 <= i < sorted.len() && sorted[i] == x;
            assert(sorted.push(definition)[i] == x);
        }
    } else {
        let rest = sorted.drop_last();
        let grown = insert_by_name(rest, definition);
        if x == sorted.last() {
            assert(grown.push(sorted.last())[grown.len() as int] == x);
        } else {
            if x != definition {
                let i = choose|i: int| 0 <= i < sorted.len() && sorted[i] == x;
                assert(i < rest.len() && rest[i] == x);
            }
            lemma_insert_keeps(rest, definition, x);
            let j = choose|j: int| 0 <= j < grown.len() && grown[j] == x;
            assert(grown.push(sorted.last())[j] == x);
        }
    }
}

proof fn lemma_sorted_keeps(definitions: Seq<NodeDefinition>, x: NodeDefinition)
    requires
        definitions.contains(x),
    ensures
        sorted_by_name(definitions).contains(x),
    decreases definitions.len(),
{
    let rest = definitions.drop_last();
    if x != definitions.last() {
        let i = choose|i: int| 0 <= i < definitions.len() && definitions[i] == x;
        assert(i < rest.len() && rest[i] == x);
        lemma_sorted_keeps(rest, x);
    }
    lemma_insert_keeps(sorted_by_name(rest), definitions.last(), x);
}

/// A blank search keeps every node type: each one is listed in the section of its category.
pub proof fn lemma_blank_search_keeps_every_node(
    definitions: Seq<NodeDefinition>,
    search: Seq<char>,
    i: int,
)
    requires
        trim_text(search).len() == 0,
        0 <= i < definitions.len(),
    ensures
        section_entries(
            definitions,
            normalized_search(search),
            category_index(definitions[i].category),
        ).contains(definitions[i]),
{
    let term = normalized_search(search);
    let k = category_index(definitions[i].category);
    assert(term.len() == 0);
    assert(section_filter(term, k)(definitions[i]));
    definitions.lemma_filter_contains(section_filter(term, k), i);
    lemma_sorted_keeps(definitions.filter(section_filter(term, k)), definitions[i]);
}

/// With a non-blank search, a node type is listed in the section of its category when the search
/// term (trimmed and lower-cased) occurs in its lower-cased display name or in its lower-cased
/// id, and (the term being non-empty) is listed in no section otherwise: the display name is
/// matched case-insensitively like the id.
pub proof fn lemma_search_matches_lowercased_name_or_id(
    definitions: Seq<NodeDefinition>,
    search: Seq<char>,
    i: int,
)
    requires
        trim_text(search).len() > 0,
        0 <= i < definitions.len(),
    ensures
        section_entries(
            definitions,
            normalized_search(search),
            category_index(definitions[i].category),
        ).contains(definitions[i]) <== (contains_text(
            lowercase_of(definitions[i].display_name@),
            lowercase_of(trim_text(search)),
        ) || contains_text(lowercase_of(definitions[i].id@), lowercase_of(trim_text(search)))),
        forall|k: int|
            #[trigger] section_entries(definitions, normalized_search(search), k).contains(
                definitions[i],
            ) && normalized_search(search).len() > 0 ==> (contains_text(
                lowercase_of(definitions[i].display_name@),
                lowercase_of(trim_text(search)),
            ) || contains_text(lowercase_of(definitions[i].id@), lowercase_of(trim_text(search)))),
{
    let term = normalized_search(search);
    let d = definitions[i];
    let k = category_index(d.category);
    assert(term == lowercase_of(trim_text(search)));
    if contains_text(lowercase_of(d.display_name@), term) || contains_text(lowercase_of(d.id@), term) {
        assert(section_filter(term, k)(d));
        definitions.lemma_filter_contains(section_filter(term, k), i);
        lemma_sorted_keeps(definitions.filter(section_filter(term, k)), d);
    }
    assert forall|m: int|
        #[trigger] section_entries(definitions, term, m).contains(d) && term.len() > 0 implies (contains_text(
        lowercase_of(d.display_name@),
        term,
    ) || contains_text(lowercase_of(d.id@), term)) by {
        let filtered = definitions.filter(section_filter(term, m));
        lemma_sorted_only(filtered, d);
        definitions.lemma_filter_contains_rev(section_filter(term, m), d);
        let j = choose|j: int| 0 <= j < filtered.len() && filtered[j] == d;
        definitions.lemma_filter_pred(section_filter(term, m), j);
    }
}

proof fn lemma_insert_only(sorted: Seq<NodeDefinition>, definition: NodeDefinition, x: NodeDefinition)
    requires
        insert_by_name(sorted, definition).contains(x),
    ensures
        x == definition || sorted.contains(x),
    decreases sorted.len(),
{
    if sorted.len() == 0 {
        assert(seq![definition].len() == 1);
    } else if text_le(sorted.last().display_name@, definition.display_name@) {
        let j = choose|j: int| 0 <= j < sorted.push(definition).len() && sorted.push(definition)[j] == x;
        if j < sorted.len() {
            assert(sorted[j] == x);
        }
    } else {
        let rest = sorted.drop_last();
        let grown = insert_by_name(rest, definition);
        let j = choose|j: int| 0 <= j < grown.push(sorted.last()).len() && grown.push(sorted.last())[j] == x;
        if j < grown.len() {
            assert(grown[j] == x);
            lemma_insert_only(rest, definition, x);
            if x != definition {
                let m = choose|m: int| 0 <= m < rest.len() && rest[m] == x;
                assert(sorted[m] == x);
            }
        } else {
            assert(sorted[sorted.len() - 1] == x);
        }
    }
}

proof fn lemma_sorted_only(definitions: Seq<NodeDefinition>, x: NodeDefinition)
    requires
        sorted_by_name(definitions).contains(x),
    ensures
        definitions.contains(x),
    decreases definitions.len(),
{
    if definitions.len() == 0 {
    } else {
        let rest = definitions.drop_last();
        lemma_insert_only(sorted_by_name(rest), definitions.last(), x);
        if x == definitions.last() {
            assert(definitions[definitions.len() - 1] == x);
        } else {
            lemma_sorted_only(rest, x);
            let m = choose|m: int| 0 <= m < rest.len() && rest[m] == x;
            assert(definitions[m] == x);
        }
    }
}

} // verus!
