//! Copying selected nodes out of a graph as a fragment, and pasting a fragment into a graph:
//! which nodes are kept, the fresh ids they get, which edges come with them, and the order of the
//! graph's edges afterwards.

use vstd::prelude::*;
use crate::document::{GraphDocument, GraphEdge, GraphNode, NodePosition};
use crate::exchange::{
    GraphClipboardFragment, GRAPH_CLIPBOARD_FRAGMENT_FORMAT, GRAPH_CLIPBOARD_FRAGMENT_VERSION,
};
use crate::value::Decimal;
use crate::schema::{first_position, lemma_first_position, lemma_no_position, NodeDefinition};
use crate::text::{
    decimal_text, push_decimal, lemma_text_le_antisymmetric, lemma_text_le_total, lemma_text_le_transitive, str_equal, str_le,
    text_le,
};

verus! {

/// An edge as the texts of its endpoints.
pub struct EdgeView {
    pub from_node: Seq<char>,
    pub from_output: Seq<char>,
    pub to_node: Seq<char>,
    pub to_input: Seq<char>,
}

/// The edge as the texts of its endpoints.
pub open spec fn edge_view(edge: GraphEdge) -> EdgeView {
    EdgeView {
        from_node: edge.from_node_id@,
        from_output: edge.from_output_name@,
        to_node: edge.to_node_id@,
        to_input: edge.to_input_name@,
    }
}

/// The edges as texts, in order.
pub open spec fn edge_views(edges: Seq<GraphEdge>) -> Seq<EdgeView> {
    edges.map_values(|e: GraphEdge| edge_view(e))
}

/// Whether edge `a` sorts before or with edge `b`: by source node, then output, then target
/// node, then input, each in `str` order.
pub open spec fn edge_le(a: EdgeView, b: EdgeView) -> bool {
    if a.from_node != b.from_node {
        text_le(a.from_node, b.from_node)
    } else if a.from_output != b.from_output {
        text_le(a.from_output, b.from_output)
    } else if a.to_node != b.to_node {
        text_le(a.to_node, b.to_node)
    } else {
        text_le(a.to_input, b.to_input)
    }
}

/// Whether edges are in order.
pub open spec fn edges_sorted(edges: Seq<EdgeView>) -> bool {
    forall|i: int, j: int| 0 <= i < j < edges.len() ==> edge_le(edges[i], edges[j])
}

proof fn lemma_edge_le_total(a: EdgeView, b: EdgeView)
    ensures
        edge_le(a, b) || edge_le(b, a),
{
    lemma_text_le_total(a.from_node, b.from_node);
    lemma_text_le_total(a.from_output, b.from_output);
    lemma_text_le_total(a.to_node, b.to_node);
    lemma_text_le_total(a.to_input, b.to_input);
}

proof fn lemma_edge_le_transitive(a: EdgeView, b: EdgeView, c: EdgeView)
    requires
        edge_le(a, b),
        edge_le(b, c),
    ensures
        edge_le(a, c),
{
    if a.from_node != b.from_node && b.from_node != c.from_node {
        lemma_text_le_transitive(a.from_node, b.from_node, c.from_node);
        if a.from_node == c.from_node {
            lemma_text_le_antisymmetric(a.from_node, b.from_node);
        }
    } else if a.from_node == b.from_node && b.from_node == c.from_node {
        if a.from_output != b.from_output && b.from_output != c.from_output {
            lemma_text_le_transitive(a.from_output, b.from_output, c.from_output);
            if a.from_output == c.from_output {
                lemma_text_le_antisymmetric(a.from_output, b.from_output);
            }
        } else if a.from_output == b.from_output && b.from_output == c.from_output {
            if a.to_node != b.to_node && b.to_node != c.to_node {
                lemma_text_le_transitive(a.to_node, b.to_node, c.to_node);
                if a.to_node == c.to_node {
                    lemma_text_le_antisymmetric(a.to_node, b.to_node);
                }
            } else if a.to_node == b.to_node && b.to_node == c.to_node {
                lemma_text_le_transitive(a.to_input, b.to_input, c.to_input);
            }
        }
    }
}

fn edge_le_exec(a: &GraphEdge, b: &GraphEdge) -> (le: bool)
    ensures
        le == edge_le(edge_view(*a), edge_view(*b)),
{
    if !str_equal(a.from_node_id.as_str(), b.from_node_id.as_str()) {
        str_le(a.from_node_id.as_str(), b.from_node_id.as_str())
    } else if !str_equal(a.from_output_name.as_str(), b.from_output_name.as_str()) {
        str_le(a.from_output_name.as_str(), b.from_output_name.as_str())
    } else if !str_equal(a.to_node_id.as_str(), b.to_node_id.as_str()) {
        str_le(a.to_node_id.as_str(), b.to_node_id.as_str())
    } else {
        str_le(a.to_input_name.as_str(), b.to_input_name.as_str())
    }
}

/// Sorts edges by source node, output, target node and input; edges that compare equal are
/// equal as texts, so the result is determined by the edges alone.
pub fn sort_edges(edges: Vec<GraphEdge>) -> (sorted: Vec<GraphEdge>)
    ensures
        edges_sorted(edge_views(sorted@)),
        edge_views(sorted@).to_multiset() == edge_views(edges@).to_multiset(),
{
    let ghost all = edges@;
    let total = edges.len();
    let mut rest = edges;
    let mut sorted: Vec<GraphEdge> = Vec::new();
    let mut i: usize = 0;
    assert(edge_views(all.take(0)) =~= Seq::<EdgeView>::empty());
    assert(edge_views(sorted@) =~= edge_views(all.take(0)));
    assert(all.skip(0) =~= all);
    while rest.len() > 0
        invariant
            i <= all.len(),
            all.len() == total,
            rest@ == all.skip(i as int),
            edges_sorted(edge_views(sorted@)),
            edge_views(sorted@).to_multiset() == edge_views(all.take(i as int)).to_multiset(),
        decreases rest@.len(),
    {
        let edge = rest.remove(0);
        assert(all.take(i + 1) =~= all.take(i as int).push(edge));
        assert(edge_views(all.take(i + 1)) =~= edge_views(all.take(i as int)).push(edge_view(edge)));
        let ghost before = edge_views(sorted@);
        let mut p: usize = 0;
        while p < sorted.len() && edge_le_exec(&sorted[p], &edge)
            invariant
                p <= sorted@.len(),
                forall|k: int| 0 <= k < p ==> edge_le(before[k], edge_view(edge)),
                before == edge_views(sorted@),
            decreases sorted@.len() - p,
        {
            p = p + 1;
        }
        proof {
            vstd::seq_lib::to_multiset_build(edge_views(all.take(i as int)), edge_view(edge));
            vstd::seq_lib::to_multiset_insert(before, p as int, edge_view(edge));
            if p < sorted@.len() {
                lemma_edge_le_total(before[p as int], edge_view(edge));
            }
            assert forall|k: int| p <= k < before.len() implies edge_le(
                edge_view(edge),
                #[trigger] before[k],
            ) by {
                if k > p {
                    lemma_edge_le_transitive(edge_view(edge), before[p as int], before[k]);
                }
            }
        }
        sorted.insert(p, edge);
        proof {
            let after = edge_views(sorted@);
            assert(after =~= before.insert(p as int, edge_view(edge)));
            assert forall|a: int, b: int| 0 <= a < b < after.len() implies edge_le(
                after[a],
                after[b],
            ) by {
                if b < p {
                } else if a < p && b == p {
                } else if a < p && b > p {
                    lemma_edge_le_transitive(before[a], edge_view(edge), before[b - 1]);
                } else if a == p {
                } else {
                }
            }
        }
        i = i + 1;
    }
    assert(all.take(i as int) =~= all);
    sorted
}


/// Whether some definition has the node type `type_id`.
pub open spec fn type_known(definitions: Seq<NodeDefinition>, type_id: Seq<char>) -> bool {
    exists|i: int| 0 <= i < definitions.len() && (#[trigger] definitions[i]).id@ == type_id
}

/// The nodes whose type is known, in order.
pub open spec fn kept_nodes(nodes: Seq<GraphNode>, definitions: Seq<NodeDefinition>) -> Seq<GraphNode>
    decreases nodes.len(),
{
    if nodes.len() == 0 {
        Seq::empty()
    } else {
        let earlier = kept_nodes(nodes.drop_last(), definitions);
        if type_known(definitions, nodes.last().node_type.0@) {
            earlier.push(nodes.last())
        } else {
            earlier
        }
    }
}

/// The unknown node types, each once, in order of first appearance.
pub open spec fn skipped_types(nodes: Seq<GraphNode>, definitions: Seq<NodeDefinition>) -> Seq<
    Seq<char>,
>
    decreases nodes.len(),
{
    if nodes.len() == 0 {
        Seq::empty()
    } else {
        let earlier = skipped_types(nodes.drop_last(), definitions);
        let type_id = nodes.last().node_type.0@;
        if !type_known(definitions, type_id) && !earlier.contains(type_id) {
            earlier.push(type_id)
        } else {
            earlier
        }
    }
}

/// The old ids of a renaming, in order.
pub open spec fn renamed_ids(names: Seq<(Seq<char>, Seq<char>)>) -> Seq<Seq<char>> {
    names.map_values(|p: (Seq<char>, Seq<char>)| p.0)
}

/// The renaming after `old_id` is renamed to `fresh_id`: its entry is replaced, or added last.
pub open spec fn renamed(names: Seq<(Seq<char>, Seq<char>)>, old_id: Seq<char>, fresh_id: Seq<char>) -> Seq<
    (Seq<char>, Seq<char>),
> {
    match first_position(renamed_ids(names), old_id) {
        Some(i) => names.update(i, (old_id, fresh_id)),
        None => names.push((old_id, fresh_id)),
    }
}

/// The renaming of kept nodes to fresh ids: each old id, in order of first appearance, with the
/// fresh id of its last node.
pub open spec fn renaming(kept: Seq<GraphNode>, fresh: Seq<Seq<char>>) -> Seq<(Seq<char>, Seq<char>)>
    decreases kept.len(),
{
    if kept.len() == 0 {
        Seq::empty()
    } else {
        renamed(renaming(kept.drop_last(), fresh.drop_last()), kept.last().id@, fresh.last())
    }
}

/// The fresh id that a renaming gives `old_id`, if any.
pub open spec fn renamed_to(names: Seq<(Seq<char>, Seq<char>)>, old_id: Seq<char>) -> Option<Seq<char>> {
    match first_position(renamed_ids(names), old_id) {
        Some(i) => Some(names[i].1),
        None => None,
    }
}

/// The edges that come with pasted nodes: the fragment's edges whose two ends were both renamed,
/// between the fresh ids, in order.
pub open spec fn pasted_edges(edges: Seq<GraphEdge>, names: Seq<(Seq<char>, Seq<char>)>) -> Seq<
    EdgeView,
>
    decreases edges.len(),
{
    if edges.len() == 0 {
        Seq::empty()
    } else {
        let earlier = pasted_edges(edges.drop_last(), names);
        let edge = edges.last();
        match (renamed_to(names, edge.from_node_id@), renamed_to(names, edge.to_node_id@)) {
            (Some(from_node), Some(to_node)) => earlier.push(
                EdgeView {
                    from_node,
                    from_output: edge.from_output_name@,
                    to_node,
                    to_input: edge.to_input_name@,
                },
            ),
            _ => earlier,
        }
    }
}

/// The texts of strings, in order.
pub open spec fn texts(strings: Seq<String>) -> Seq<Seq<char>> {
    strings.map_values(|s: String| s@)
}

/// The texts of a list of renamings.
pub open spec fn pair_texts(pairs: Seq<(String, String)>) -> Seq<(Seq<char>, Seq<char>)> {
    pairs.map_values(|p: (String, String)| (p.0@, p.1@))
}

/// Whether `c` is a lower-case hexadecimal digit.
pub open spec fn is_lower_hex_digit(c: char) -> bool {
    (48 <= (c as u32) <= 57) || (97 <= (c as u32) <= 102)
}

/// Whether `id` is the hyphenated lower-case text of a random (version 4, RFC variant) UUID:
/// 36 characters, hyphens at 8, 13, 18 and 23, lower-case hex digits elsewhere, the version
/// digit `4` at 14 and one of `8`, `9`, `a`, `b` at 19.
pub open spec fn is_random_id(id: Seq<char>) -> bool {
    &&& id.len() == 36
    &&& forall|i: int|
        0 <= i < 36 ==> if i == 8 || i == 13 || i == 18 || i == 23 {
            #[trigger] id[i] == '-'
        } else {
            is_lower_hex_digit(id[i])
        }
    &&& id[14] == '4'
    &&& (id[19] == '8' || id[19] == '9' || id[19] == 'a' || id[19] == 'b')
}

/// A fresh id for a pasted node, from `uuid::Uuid::new_v4()` in its hyphenated text form.
///
/// Trusted: `new_v4` masks 128 random bits to version 4 and the RFC variant, and `to_string`
/// writes the hyphenated lower-case form, so the id has the shape of `is_random_id`. Its digits
/// are random: which id comes, and that two calls give distinct ids, is not stated. The call
/// panics when the system's random source fails.
#[verifier::external_body]
fn new_node_id() -> (id: String)
    ensures
        is_random_id(id@),
{
    uuid::Uuid::new_v4().to_string()
}

fn knows_type(definitions: &[NodeDefinition], type_id: &str) -> (known: bool)
    ensures
        known == type_known(definitions@, type_id@),
{
    let mut i: usize = 0;
    while i < definitions.len()
        invariant
            i <= definitions@.len(),
            forall|j: int| 0 <= j < i ==> (#[trigger] definitions@[j]).id@ != type_id@,
        decreases definitions@.len() - i,
    {
        if str_equal(definitions[i].id.as_str(), type_id) {
            assert(type_known(definitions@, type_id@));
            return true;
        }
        i = i + 1;
    }
    false
}

fn holds_text(strings: &[String], text: &str) -> (found: bool)
    ensures
        found == texts(strings@).contains(text@),
{
    let mut i: usize = 0;
    while i < strings.len()
        invariant
            i <= strings@.len(),
            forall|j: int| 0 <= j < i ==> (#[trigger] strings@[j])@ != text@,
        decreases strings@.len() - i,
    {
        if str_equal(strings[i].as_str(), text) {
            assert(texts(strings@)[i as int] == text@);
            return true;
        }
        i = i + 1;
    }
    assert(!texts(strings@).contains(text@)) by {
        if texts(strings@).contains(text@) {
            let j = choose|j: int| 0 <= j < texts(strings@).len() && texts(strings@)[j] == text@;
            assert(strings@[j]@ == text@);
        }
    }
    false
}

fn rename_position(names: &Vec<(String, String)>, old_id: &str) -> (found: Option<usize>)
    ensures
        match found {
            Some(i) => first_position(renamed_ids(pair_texts(names@)), old_id@) == Some(i as int),
            None => first_position(renamed_ids(pair_texts(names@)), old_id@) is None,
        },
{
    let ghost ids = renamed_ids(pair_texts(names@));
    let mut i: usize = 0;
    while i < names.len()
        invariant
            i <= names@.len(),
            ids == renamed_ids(pair_texts(names@)),
            forall|j: int| 0 <= j < i ==> ids[j] != old_id@,
        decreases names@.len() - i,
    {
        if str_equal(names[i].0.as_str(), old_id) {
            proof {
                lemma_first_position(ids, old_id@, i as int);
            }
            return Some(i);
        }
        i = i + 1;
    }
    proof {
        lemma_no_position(ids, old_id@);
    }
    None
}

fn rename(names: &mut Vec<(String, String)>, old_id: String, fresh_id: String)
    ensures
        pair_texts(final(names)@) == renamed(pair_texts(old(names)@), old_id@, fresh_id@),
{
    match rename_position(names, old_id.as_str()) {
        Some(i) => {
            names.set(i, (old_id, fresh_id));
            assert(pair_texts(names@) =~= pair_texts(old(names)@).update(
                i as int,
                (old_id@, fresh_id@),
            ));
        },
        None => {
            names.push((old_id, fresh_id));
            assert(pair_texts(names@) =~= pair_texts(old(names)@).push((old_id@, fresh_id@)));
        },
    }
}

fn renamed_id<'a>(names: &'a Vec<(String, String)>, old_id: &str) -> (fresh: Option<&'a String>)
    ensures
        match fresh {
            Some(f) => renamed_to(pair_texts(names@), old_id@) == Some(f@),
            None => renamed_to(pair_texts(names@), old_id@) is None,
        },
{
    match rename_position(names, old_id) {
        Some(i) => Some(&names[i].1),
        None => None,
    }
}


/// The ids of nodes, in order.
pub open spec fn node_ids(nodes: Seq<GraphNode>) -> Seq<Seq<char>> {
    nodes.map_values(|n: GraphNode| n.id@)
}

/// Whether `added` are the kept nodes, in order, each under a new id.
pub open spec fn renamed_copies(added: Seq<GraphNode>, kept: Seq<GraphNode>) -> bool {
    &&& added.len() == kept.len()
    &&& forall|j: int|
        0 <= j < kept.len() ==> #[trigger] added[j] == (GraphNode { id: added[j].id, ..kept[j] })
}

fn paste_nodes(
    document: &mut GraphDocument,
    nodes: Vec<GraphNode>,
    definitions: &[NodeDefinition],
) -> (pasted: (Vec<(String, String)>, Vec<String>))
    ensures
        ({
            let kept = kept_nodes(nodes@, definitions@);
            let added = final(document).nodes@.skip(old(document).nodes@.len() as int);
            &&& final(document).nodes@.len() == old(document).nodes@.len() + kept.len()
            &&& final(document).nodes@.take(old(document).nodes@.len() as int) == old(
                document,
            ).nodes@
            &&& renamed_copies(added, kept)
            &&& forall|j: int| 0 <= j < added.len() ==> is_random_id(#[trigger] added[j].id@)
            &&& pair_texts(pasted.0@) == renaming(kept, node_ids(added))
            &&& texts(pasted.1@) == skipped_types(nodes@, definitions@)
        }),
        final(document).metadata == old(document).metadata,
        final(document).viewport == old(document).viewport,
        final(document).layout_assets == old(document).layout_assets,
        final(document).edges == old(document).edges,
{
    let ghost all = nodes@;
    let ghost start = document.nodes@;
    let start_len = document.nodes.len();
    let total = nodes.len();
    let mut rest = nodes;
    let mut names: Vec<(String, String)> = Vec::new();
    let mut skipped: Vec<String> = Vec::new();
    let mut i: usize = 0;
    assert(all.take(0) =~= Seq::<GraphNode>::empty());
    assert(document.nodes@.take(start_len as int) =~= start);
    assert(document.nodes@.skip(start_len as int) =~= Seq::<GraphNode>::empty());
    assert(pair_texts(names@) =~= Seq::<(Seq<char>, Seq<char>)>::empty());
    assert(texts(skipped@) =~= Seq::<Seq<char>>::empty());
    assert(all.skip(0) =~= all);
    while rest.len() > 0
        invariant
            i <= all.len(),
            all.len() == total,
            rest@ == all.skip(i as int),
            start.len() == start_len,
            document.nodes@.len() == start_len + kept_nodes(all.take(i as int), definitions@).len(),
            document.nodes@.take(start_len as int) == start,
            renamed_copies(
                document.nodes@.skip(start_len as int),
                kept_nodes(all.take(i as int), definitions@),
            ),
            forall|j: int|
                0 <= j < document.nodes@.skip(start_len as int).len() ==> is_random_id(
                    #[trigger] document.nodes@.skip(start_len as int)[j].id@,
                ),
            pair_texts(names@) == renaming(
                kept_nodes(all.take(i as int), definitions@),
                node_ids(document.nodes@.skip(start_len as int)),
            ),
            texts(skipped@) == skipped_types(all.take(i as int), definitions@),
            document.metadata == old(document).metadata,
            document.viewport == old(document).viewport,
            document.layout_assets == old(document).layout_assets,
            document.edges == old(document).edges,
        decreases rest@.len(),
    {
        let mut node = rest.remove(0);
        let ghost prefix = all.take(i as int);
        let ghost next = all.take(i + 1);
        assert(next.drop_last() =~= prefix);
        assert(next.last() == node);
        let ghost kept_before = kept_nodes(prefix, definitions@);
        let ghost added_before = document.nodes@.skip(start_len as int);
        if knows_type(definitions, node.node_type.0.as_str()) {
            let fresh = new_node_id();
            rename(&mut names, node.id.clone(), fresh.clone());
            let ghost unrenamed = node;
            node.id = fresh;
            document.nodes.push(node);
            proof {
                let added = document.nodes@.skip(start_len as int);
                assert(added =~= added_before.push(GraphNode { id: fresh, ..unrenamed }));
                assert(kept_nodes(next, definitions@) == kept_before.push(unrenamed));
                assert(document.nodes@.take(start_len as int) =~= start);
                assert(node_ids(added) =~= node_ids(added_before).push(fresh@));
                let kept_after = kept_before.push(unrenamed);
                assert(kept_after.drop_last() =~= kept_before);
                assert(node_ids(added).drop_last() =~= node_ids(added_before));
                assert forall|j: int| 0 <= j < kept_after.len() implies #[trigger] added[j] == (
                GraphNode { id: added[j].id, ..kept_after[j] }) by {
                    if j < kept_before.len() {
                        assert(added[j] == added_before[j]);
                    }
                }
            }
        } else {
            if !holds_text(skipped.as_slice(), node.node_type.0.as_str()) {
                let type_id = node.node_type.0.clone();
                skipped.push(type_id);
                assert(texts(skipped@) =~= skipped_types(prefix, definitions@).push(
                    node.node_type.0@,
                ));
            }
        }
        i = i + 1;
    }
    assert(all.take(i as int) =~= all);
    (names, skipped)
}

fn paste_edges(
    edges: &mut Vec<GraphEdge>,
    fragment_edges: &Vec<GraphEdge>,
    names: &Vec<(String, String)>,
)
    ensures
        edge_views(final(edges)@) == edge_views(old(edges)@) + pasted_edges(
            fragment_edges@,
            pair_texts(names@),
        ),
{
    let ghost start = edge_views(edges@);
    let ghost renames = pair_texts(names@);
    let mut i: usize = 0;
    assert(fragment_edges@.take(0) =~= Seq::<GraphEdge>::empty());
    assert(edge_views(edges@) =~= start + pasted_edges(fragment_edges@.take(0), renames));
    while i < fragment_edges.len()
        invariant
            i <= fragment_edges@.len(),
            renames == pair_texts(names@),
            edge_views(edges@) == start + pasted_edges(fragment_edges@.take(i as int), renames),
        decreases fragment_edges@.len() - i,
    {
        let edge = &fragment_edges[i];
        assert(fragment_edges@.take(i + 1).drop_last() =~= fragment_edges@.take(i as int));
        assert(fragment_edges@.take(i + 1).last() == *edge);
        let ghost before = edge_views(edges@);
        match (renamed_id(names, edge.from_node_id.as_str()), renamed_id(names, edge.to_node_id.as_str())) {
            (Some(from_node), Some(to_node)) => {
                let pasted = GraphEdge {
                    from_node_id: from_node.clone(),
                    from_output_name: edge.from_output_name.clone(),
                    to_node_id: to_node.clone(),
                    to_input_name: edge.to_input_name.clone(),
                };
                edges.push(pasted);
                assert(edge_views(edges@) =~= before.push(edge_view(pasted)));
            },
            _ => {},
        }
        i = i + 1;
    }
    assert(fragment_edges@.take(i as int) =~= fragment_edges@);
}

/// The outcome of a paste: the fresh ids of the pasted nodes, and the node types skipped as
/// unsupported.
pub struct PasteClipboardFragmentResult {
    pub inserted_node_ids: Vec<String>,
    pub skipped_node_type_ids: Vec<String>,
}

/// Pastes a clipboard fragment into a graph document.
///
/// Nodes of a known type are appended in fragment order, each under a fresh random UUID-v4
/// text id, and keep the position the fragment gives them (moving the fragment to the paste position is the caller's); nodes of an unknown type are skipped and their types reported once each. The
/// fragment's edges whose two ends were pasted are added between the fresh ids, and all edges of
/// the document are then sorted. The result lists, for each pasted node id, the fresh id of the
/// last node pasted under it, in order of first appearance.
pub fn paste_clipboard_fragment_into_document(
    document: &mut GraphDocument,
    fragment: GraphClipboardFragment,
    available_node_definitions: &[NodeDefinition],
) -> (result: PasteClipboardFragmentResult)
    ensures
        ({
            let kept = kept_nodes(fragment.nodes@, available_node_definitions@);
            let added = final(document).nodes@.skip(old(document).nodes@.len() as int);
            let names = renaming(kept, node_ids(added));
            &&& final(document).nodes@.len() == old(document).nodes@.len() + kept.len()
            &&& final(document).nodes@.take(old(document).nodes@.len() as int) == old(
                document,
            ).nodes@
            &&& renamed_copies(added, kept)
            &&& forall|j: int| 0 <= j < added.len() ==> is_random_id(#[trigger] added[j].id@)
            &&& edges_sorted(edge_views(final(document).edges@))
            &&& edge_views(final(document).edges@).to_multiset() == (edge_views(
                old(document).edges@,
            ) + pasted_edges(fragment.edges@, names)).to_multiset()
            &&& texts(result.inserted_node_ids@) == names.map_values(
                |p: (Seq<char>, Seq<char>)| p.1,
            )
            &&& texts(result.skipped_node_type_ids@) == skipped_types(
                fragment.nodes@,
                available_node_definitions@,
            )
        }),
        final(document).metadata == old(document).metadata,
        final(document).viewport == old(document).viewport,
        final(document).layout_assets == old(document).layout_assets,
{
    let nodes = fragment.nodes;
    let fragment_edges = fragment.edges;
    let (names, skipped) = paste_nodes(document, nodes, available_node_definitions);
    paste_edges(&mut document.edges, &fragment_edges, &names);
    let mut all_edges: Vec<GraphEdge> = Vec::new();
    std::mem::swap(&mut all_edges, &mut document.edges);
    document.edges = sort_edges(all_edges);
    let mut inserted: Vec<String> = Vec::new();
    let mut i: usize = 0;
    while i < names.len()
        invariant
            i <= names@.len(),
            texts(inserted@) == pair_texts(names@).take(i as int).map_values(
                |p: (Seq<char>, Seq<char>)| p.1,
            ),
        decreases names@.len() - i,
    {
        let ghost before = texts(inserted@);
        let fresh = names[i].1.clone();
        inserted.push(fresh);
        assert(texts(inserted@) =~= before.push(fresh@));
        assert(pair_texts(names@)[i as int].1 == fresh@);
        assert(pair_texts(names@).take(i + 1) =~= pair_texts(names@).take(i as int).push(
            pair_texts(names@)[i as int],
        ));
        assert(texts(inserted@) =~= pair_texts(names@).take(i + 1).map_values(
            |p: (Seq<char>, Seq<char>)| p.1,
        ));
        i = i + 1;
    }
    assert(pair_texts(names@).take(i as int) =~= pair_texts(names@));
    PasteClipboardFragmentResult { inserted_node_ids: inserted, skipped_node_type_ids: skipped }
}

/// The nodes whose id is among `ids`, in order.
pub open spec fn selected_nodes(nodes: Seq<GraphNode>, ids: Seq<Seq<char>>) -> Seq<GraphNode> {
    nodes.filter(|node: GraphNode| ids.contains(node.id@))
}

/// The edges whose two ends are both among `ids`, in order.
pub open spec fn internal_edges(edges: Seq<GraphEdge>, ids: Seq<Seq<char>>) -> Seq<GraphEdge> {
    edges.filter(|edge: GraphEdge| ids.contains(edge.from_node_id@) && ids.contains(edge.to_node_id@))
}

/// Whether `value` is the first of `values` that none of them is below.
pub open spec fn first_least(values: Seq<Decimal>, value: Decimal) -> bool {
    exists|i: int|
        0 <= i < values.len() && values[i] == value && (forall|j: int|
            0 <= j < values.len() ==> value.at_most(#[trigger] values[j])) && (forall|j: int|
            0 <= j < i ==> value.below(#[trigger] values[j]))
}

/// The x coordinates of the nodes, in order.
pub open spec fn node_xs(nodes: Seq<GraphNode>) -> Seq<Decimal> {
    nodes.map_values(|node: GraphNode| node.viewport.position.x)
}

/// The y coordinates of the nodes, in order.
pub open spec fn node_ys(nodes: Seq<GraphNode>) -> Seq<Decimal> {
    nodes.map_values(|node: GraphNode| node.viewport.position.y)
}

/// Returns the first of the values that none of them is below.
fn least_value(values: &Vec<Decimal>) -> (least: Decimal)
    requires
        values@.len() > 0,
    ensures
        first_least(values@, least),
{
    let mut least = values[0];
    let ghost mut at: int = 0;
    let mut k: usize = 1;
    while k < values.len()
        invariant
            1 <= k <= values@.len(),
            0 <= at < k,
            values@[at] == least,
            forall|j: int| 0 <= j < k ==> least.at_most(#[trigger] values@[j]),
            forall|j: int| 0 <= j < at ==> least.below(#[trigger] values@[j]),
        decreases values@.len() - k,
    {
        let candidate = values[k];
        if candidate.is_below(&least) {
            least = candidate;
            proof {
                at = k as int;
            }
        }
        k = k + 1;
    }
    least
}

/// The top-left corner of the nodes' positions: the least x and the least y, each the first such
/// value in node order; the origin when there are no nodes.
fn clipboard_fragment_origin(nodes: &Vec<GraphNode>) -> (origin: NodePosition)
    ensures
        nodes@.len() == 0 ==> origin == (NodePosition {
            x: Decimal { negative: false, significand: 0, exponent: 0 },
            y: Decimal { negative: false, significand: 0, exponent: 0 },
        }),
        nodes@.len() > 0 ==> first_least(node_xs(nodes@), origin.x) && first_least(
            node_ys(nodes@),
            origin.y,
        ),
{
    if nodes.len() == 0 {
        return NodePosition::default();
    }
    let mut xs: Vec<Decimal> = Vec::new();
    let mut ys: Vec<Decimal> = Vec::new();
    let mut k: usize = 0;
    while k < nodes.len()
        invariant
            k <= nodes@.len(),
            xs@ == node_xs(nodes@).take(k as int),
            ys@ == node_ys(nodes@).take(k as int),
        decreases nodes@.len() - k,
    {
        xs.push(nodes[k].viewport.position.x);
        ys.push(nodes[k].viewport.position.y);
        assert(xs@ =~= node_xs(nodes@).take(k + 1));
        assert(ys@ =~= node_ys(nodes@).take(k + 1));
        k = k + 1;
    }
    assert(xs@ =~= node_xs(nodes@));
    assert(ys@ =~= node_ys(nodes@));
    NodePosition { x: least_value(&xs), y: least_value(&ys) }
}

fn take_selected_nodes(nodes: Vec<GraphNode>, ids: &[String]) -> (selected: Vec<GraphNode>)
    ensures
        selected@ == selected_nodes(nodes@, texts(ids@)),
{
    let ghost all = nodes@;
    let ghost wanted = texts(ids@);
    let total = nodes.len();
    let mut rest = nodes;
    let mut selected: Vec<GraphNode> = Vec::new();
    let mut i: usize = 0;
    proof {
        reveal(Seq::filter);
    }
    assert(all.take(0) =~= Seq::<GraphNode>::empty());
    assert(all.skip(0) =~= all);
    while rest.len() > 0
        invariant
            i <= all.len(),
            all.len() == total,
            rest@ == all.skip(i as int),
            wanted == texts(ids@),
            selected@ == selected_nodes(all.take(i as int), wanted),
        decreases rest@.len(),
    {
        let node = rest.remove(0);
        let ghost prefix = all.take(i as int);
        let ghost next = all.take(i + 1);
        assert(next.drop_last() =~= prefix);
        assert(next.last() == node);
        proof {
            reveal(Seq::filter);
        }
        if holds_text(ids, node.id.as_str()) {
            selected.push(node);
        }
        assert(all.skip(i + 1) =~= rest@);
        i = i + 1;
    }
    assert(all.take(i as int) =~= all);
    selected
}

fn take_internal_edges(edges: Vec<GraphEdge>, ids: &[String]) -> (internal: Vec<GraphEdge>)
    ensures
        internal@ == internal_edges(edges@, texts(ids@)),
{
    let ghost all = edges@;
    let ghost wanted = texts(ids@);
    let total = edges.len();
    let mut rest = edges;
    let mut internal: Vec<GraphEdge> = Vec::new();
    let mut i: usize = 0;
    proof {
        reveal(Seq::filter);
    }
    assert(all.take(0) =~= Seq::<GraphEdge>::empty());
    assert(all.skip(0) =~= all);
    while rest.len() > 0
        invariant
            i <= all.len(),
            all.len() == total,
            rest@ == all.skip(i as int),
            wanted == texts(ids@),
            internal@ == internal_edges(all.take(i as int), wanted),
        decreases rest@.len(),
    {
        let edge = rest.remove(0);
        let ghost prefix = all.take(i as int);
        let ghost next = all.take(i + 1);
        assert(next.drop_last() =~= prefix);
        assert(next.last() == edge);
        proof {
            reveal(Seq::filter);
        }
        if holds_text(ids, edge.from_node_id.as_str()) && holds_text(ids, edge.to_node_id.as_str()) {
            internal.push(edge);
        }
        assert(all.skip(i + 1) =~= rest@);
        i = i + 1;
    }
    assert(all.take(i as int) =~= all);
    internal
}

/// Whether `fragment` is the copy of the nodes of `document` whose id is among `ids`: at least one
/// node is, and the fragment holds them in document order with the edges whose two ends are among
/// `ids`, under the current clipboard header, its origin the least x and the least y over them.
pub open spec fn copied_fragment(
    document: GraphDocument,
    ids: Seq<Seq<char>>,
    fragment: GraphClipboardFragment,
) -> bool {
    let nodes = selected_nodes(document.nodes@, ids);
    &&& nodes.len() > 0
    &&& fragment.format@ == GRAPH_CLIPBOARD_FRAGMENT_FORMAT@
    &&& fragment.version == GRAPH_CLIPBOARD_FRAGMENT_VERSION
    &&& fragment.nodes@ == nodes
    &&& fragment.edges@ == internal_edges(document.edges@, ids)
    &&& first_least(node_xs(nodes), fragment.origin.x)
    &&& first_least(node_ys(nodes), fragment.origin.y)
}

/// Builds a clipboard fragment from the selected nodes of a document.
///
/// The fragment holds, in document order, the nodes whose id is selected and the edges whose two
/// ends are both selected ids; its origin is the least x and the least y over the copied nodes.
/// There is no fragment when no id is selected or no node of the document is.
pub fn clipboard_fragment_from_document(document: GraphDocument, selected_node_ids: &[String]) -> (fragment: Option<GraphClipboardFragment>)
    ensures
        ({
            let ids = texts(selected_node_ids@);
            match fragment {
                None => ids.len() == 0 || selected_nodes(document.nodes@, ids).len() == 0,
                Some(f) => ids.len() > 0 && copied_fragment(document, ids, f),
            }
        }),
{
    if selected_node_ids.len() == 0 {
        return None;
    }
    let nodes = take_selected_nodes(document.nodes, selected_node_ids);
    if nodes.len() == 0 {
        return None;
    }
    let origin = clipboard_fragment_origin(&nodes);
    let edges = take_internal_edges(document.edges, selected_node_ids);
    Some(GraphClipboardFragment::new(origin, nodes, edges))
}

/// Picks what a copy of the selected nodes puts on the clipboard, or the status line that says
/// why nothing is copied: no node is selected, no document is loaded, or no selected node is in
/// the document.
pub fn fragment_to_copy(document: Option<GraphDocument>, selected_node_ids: &[String]) -> (result:
    Result<GraphClipboardFragment, String>)
    ensures
        ({
            let ids = texts(selected_node_ids@);
            if ids.len() == 0 {
                result matches Err(status) && status@ == "Select one or more nodes to copy"@
            } else {
                match document {
                    None => result matches Err(status) && status@ == "No graph document is loaded"@,
                    Some(d) => if selected_nodes(d.nodes@, ids).len() == 0 {
                        result matches Err(status) && status@ == "Nothing selected to copy"@
                    } else {
                        result matches Ok(f) && copied_fragment(d, ids, f)
                    },
                }
            }
        }),
{
    if selected_node_ids.len() == 0 {
        return Err(String::from_str("Select one or more nodes to copy"));
    }
    match document {
        None => Err(String::from_str("No graph document is loaded")),
        Some(document) => match clipboard_fragment_from_document(document, selected_node_ids) {
            Some(fragment) => Ok(fragment),
            None => Err(String::from_str("Nothing selected to copy")),
        },
    }
}

/// The status shown while `count` copied nodes are written to the clipboard.
pub open spec fn copying_text(count: nat) -> Seq<char> {
    "Copying "@ + decimal_text(count) + " node(s) to clipboard"@
}

/// The status shown once `count` nodes were copied to the clipboard.
pub open spec fn copied_text(count: nat) -> Seq<char> {
    "Copied "@ + decimal_text(count) + " node(s) to clipboard"@
}

/// Returns the status shown while `count` copied nodes are written to the clipboard.
pub fn copying_status(count: usize) -> (status: String)
    ensures
        status@ == copying_text(count as nat),
{
    let mut status = String::from_str("Copying ");
    push_decimal(&mut status, count as u64);
    status.append(" node(s) to clipboard");
    status
}

/// Returns the status shown once `count` nodes were copied to the clipboard.
pub fn copied_status(count: usize) -> (status: String)
    ensures
        status@ == copied_text(count as nat),
{
    let mut status = String::from_str("Copied ");
    push_decimal(&mut status, count as u64);
    status.append(" node(s) to clipboard");
    status
}

} // verus!
